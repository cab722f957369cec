//! The instance builder and the long-lived instance handle: the supported API
//! versions, the closed set of debug strategies, the assembly of
//! instance-creation parameters, and the reference-counted teardown of the
//! created instance.

use crate::debug::DebugCallback;
use crate::extensions::{
    enabled_layers, required_extensions, spec_enabled_layers, spec_required_extensions,
    WindowDisplay,
};
use crate::vk_api;
use vstd::prelude::*;

verus! {

/// The four supported Vulkan API versions.
#[derive(Clone, Copy, Debug, PartialEq, Eq, Structural)]
pub enum VulkanApiVersion {
    V1_0,
    V1_1,
    V1_2,
    V1_3,
}

impl VulkanApiVersion {
    /// The loader's packed encoding of the version:
    /// `(major << 22) | (minor << 12)` with no variant and no patch.
    pub open spec fn encoding_spec(self) -> u32 {
        match self {
            VulkanApiVersion::V1_0 => 0x40_0000u32,
            VulkanApiVersion::V1_1 => 0x40_1000u32,
            VulkanApiVersion::V1_2 => 0x40_2000u32,
            VulkanApiVersion::V1_3 => 0x40_3000u32,
        }
    }

    /// Maps the version to the loader's packed encoding.
    pub fn encode(self) -> (r: u32)
        ensures
            r == self.encoding_spec(),
    {
        match self {
            VulkanApiVersion::V1_0 => vk_api::packed_api_version_1_0(),
            VulkanApiVersion::V1_1 => vk_api::packed_api_version_1_1(),
            VulkanApiVersion::V1_2 => vk_api::packed_api_version_1_2(),
            VulkanApiVersion::V1_3 => vk_api::packed_api_version_1_3(),
        }
    }
}

/// The closed set of debug policies: `Idle` requests no instrumentation; the
/// other two request the validation layer and the debug-utils extension and
/// install the named callback they carry.
#[derive(Clone, Copy, Debug, PartialEq, Eq, Structural)]
pub enum VulkanDebugInfoStrategy {
    Idle,
    PrintAll(DebugCallback),
    PanicOnErrorsPrintOthers(DebugCallback),
}

impl VulkanDebugInfoStrategy {
    /// The default print-everything policy, carrying the print-all callback.
    pub fn default_print_all() -> (r: Self)
        ensures
            r == VulkanDebugInfoStrategy::PrintAll(DebugCallback::PrintAll),
    {
        VulkanDebugInfoStrategy::PrintAll(DebugCallback::PrintAll)
    }

    /// The default fail-fast policy, carrying the panic-on-errors callback.
    pub fn default_panic_on_errors() -> (r: Self)
        ensures
            r == VulkanDebugInfoStrategy::PanicOnErrorsPrintOthers(
                DebugCallback::PanicOnErrorsPrintOthers,
            ),
    {
        VulkanDebugInfoStrategy::PanicOnErrorsPrintOthers(DebugCallback::PanicOnErrorsPrintOthers)
    }

    pub open spec fn is_idle_spec(self) -> bool {
        self is Idle
    }

    pub fn is_idle(&self) -> (r: bool)
        ensures
            r == self.is_idle_spec(),
    {
        matches!(self, VulkanDebugInfoStrategy::Idle)
    }

    /// The callback the strategy installs, if any.
    pub open spec fn callback_spec(self) -> Option<DebugCallback> {
        match self {
            VulkanDebugInfoStrategy::Idle => None,
            VulkanDebugInfoStrategy::PrintAll(callback) => Some(callback),
            VulkanDebugInfoStrategy::PanicOnErrorsPrintOthers(callback) => Some(callback),
        }
    }
}

/// What a debug messenger is created with: the severity and category
/// subscription masks and the callback to install.
#[derive(Clone, Copy, Debug, PartialEq, Eq, Structural)]
pub struct DebugMessengerParams {
    /// ERROR, WARNING and INFO severities.
    pub message_severity_mask: u32,
    /// GENERAL, VALIDATION and PERFORMANCE categories.
    pub message_type_mask: u32,
    pub callback: DebugCallback,
}

/// The messenger parameters a strategy asks for: none under `Idle`, the full
/// severity and category subscription with the strategy's callback otherwise.
pub open spec fn spec_messenger_params(debug_strategy: VulkanDebugInfoStrategy) -> Option<
    DebugMessengerParams,
> {
    match debug_strategy.callback_spec() {
        None => None,
        Some(callback) => Some(
            DebugMessengerParams {
                message_severity_mask: 0x1110u32,
                message_type_mask: 0x7u32,
                callback,
            },
        ),
    }
}

fn debug_messenger_params(callback: DebugCallback) -> (r: DebugMessengerParams)
    ensures
        r == (DebugMessengerParams {
            message_severity_mask: 0x1110u32,
            message_type_mask: 0x7u32,
            callback,
        }),
{
    let error_bit = vk_api::severity_error_bit();
    let warning_bit = vk_api::severity_warning_bit();
    let info_bit = vk_api::severity_info_bit();
    let message_severity_mask = error_bit | warning_bit | info_bit;
    assert(error_bit | warning_bit | info_bit == 0x1110u32) by (bit_vector)
        requires
            error_bit == 0x1000u32,
            warning_bit == 0x100u32,
            info_bit == 0x10u32,
    ;
    let general_bit = vk_api::type_general_bit();
    let validation_bit = vk_api::type_validation_bit();
    let performance_bit = vk_api::type_performance_bit();
    let message_type_mask = general_bit | validation_bit | performance_bit;
    assert(general_bit | validation_bit | performance_bit == 0x7u32) by (bit_vector)
        requires
            general_bit == 0x1u32,
            validation_bit == 0x2u32,
            performance_bit == 0x4u32,
    ;
    DebugMessengerParams { message_severity_mask, message_type_mask, callback }
}

/// Everything that instance creation is invoked with: the negotiated
/// extension and layer lists, the packed API version, the creation flags
/// (portability enumeration), and the messenger parameters, if any.
pub struct InstanceCreateParams {
    pub enabled_extensions: Vec<String>,
    pub enabled_layers: Vec<String>,
    pub packed_api_version: u32,
    pub create_flags: u32,
    pub messenger: Option<DebugMessengerParams>,
}

/// The mathematical content of `InstanceCreateParams`.
#[verifier::ext_equal]
pub struct CreateParamsView {
    pub extensions: Seq<Seq<char>>,
    pub layers: Seq<Seq<char>>,
    pub packed_api_version: u32,
    pub create_flags: u32,
    pub messenger: Option<DebugMessengerParams>,
}

impl View for InstanceCreateParams {
    type V = CreateParamsView;

    open spec fn view(&self) -> CreateParamsView {
        CreateParamsView {
            extensions: self.enabled_extensions.deep_view(),
            layers: self.enabled_layers.deep_view(),
            packed_api_version: self.packed_api_version,
            create_flags: self.create_flags,
            messenger: self.messenger,
        }
    }
}

/// The parameters that a window, a strategy and a version determine.
pub open spec fn spec_create_params(
    surface: Seq<Seq<char>>,
    debug_strategy: VulkanDebugInfoStrategy,
    vulkan_api_version: VulkanApiVersion,
) -> CreateParamsView {
    CreateParamsView {
        extensions: spec_required_extensions(surface, debug_strategy.is_idle_spec()),
        layers: spec_enabled_layers(debug_strategy.is_idle_spec()),
        packed_api_version: vulkan_api_version.encoding_spec(),
        create_flags: 0x1u32,
        messenger: spec_messenger_params(debug_strategy),
    }
}

impl InstanceCreateParams {
    /// Assembles the creation parameters, exactly as `spec_create_params`
    /// states them.
    pub fn assemble(
        window: WindowDisplay,
        debug_strategy: &VulkanDebugInfoStrategy,
        vulkan_api_version: VulkanApiVersion,
    ) -> (r: Self)
        ensures
            r@ == spec_create_params(window@, *debug_strategy, vulkan_api_version),
    {
        let enabled_extensions = required_extensions(window, debug_strategy);
        let layers = enabled_layers(debug_strategy);
        let packed_api_version = vulkan_api_version.encode();
        let create_flags = vk_api::enumerate_portability_flag_bit();
        let messenger = match debug_strategy {
            VulkanDebugInfoStrategy::Idle => None,
            VulkanDebugInfoStrategy::PrintAll(callback) => Some(debug_messenger_params(*callback)),
            VulkanDebugInfoStrategy::PanicOnErrorsPrintOthers(callback) => Some(
                debug_messenger_params(*callback),
            ),
        };
        let r = InstanceCreateParams {
            enabled_extensions,
            enabled_layers: layers,
            packed_api_version,
            create_flags,
            messenger,
        };
        proof {
            assert(r@ =~= spec_create_params(window@, *debug_strategy, vulkan_api_version));
        }
        r
    }
}

/// One shared reference to the raw instance, handed to a downstream
/// collaborator; the instance cannot be torn down while one is alive.
pub struct SharedInstanceRef {
    _token: (),
}

/// One step of the ordered teardown sequence.
#[derive(Clone, Copy, Debug, PartialEq, Eq, Structural)]
pub enum TeardownStep {
    DestroyDebugUtilsMessenger,
    DestroyInstance,
}

/// The ordered teardown of an instance: its messenger — a child object — is
/// destroyed first, then the instance itself.
pub open spec fn spec_teardown_steps(has_messenger: bool) -> Seq<TeardownStep> {
    if has_messenger {
        seq![TeardownStep::DestroyDebugUtilsMessenger, TeardownStep::DestroyInstance]
    } else {
        seq![TeardownStep::DestroyInstance]
    }
}

/// The programming error of releasing an instance that other holders still
/// reference.
#[derive(Debug)]
pub struct OwnershipViolation {
    /// How many shared references were still alive.
    pub shared_refs: u64,
}

impl OwnershipViolation {
    pub fn message(&self) -> (r: String)
        ensures
            r@ == "Attempted to drop instance while being used by others"@,
    {
        "Attempted to drop instance while being used by others".to_owned()
    }
}

/// The long-lived handle around a created instance: the parameters it was
/// created with, the recorded API version, and the count of shared references
/// handed out and not yet returned.
pub struct InstanceForWindow {
    create_params: InstanceCreateParams,
    vk_api_version: VulkanApiVersion,
    shared_refs: u64,
}

/// The mathematical content of `InstanceForWindow`.
#[verifier::ext_equal]
pub struct InstanceView {
    pub params: CreateParamsView,
    pub vk_api_version: VulkanApiVersion,
    pub shared_refs: nat,
}

impl View for InstanceForWindow {
    type V = InstanceView;

    closed spec fn view(&self) -> InstanceView {
        InstanceView {
            params: self.create_params@,
            vk_api_version: self.vk_api_version,
            shared_refs: self.shared_refs as nat,
        }
    }
}

impl InstanceForWindow {
    /// Creates the handle for an instance bootstrapped from the given window,
    /// strategy and version: the creation parameters are exactly
    /// `spec_create_params`, the requested version is recorded unchanged, and
    /// no shared reference is out.
    pub fn new(
        window: WindowDisplay,
        debug_strategy: VulkanDebugInfoStrategy,
        vulkan_api_version: VulkanApiVersion,
    ) -> (r: Self)
        ensures
            r@ == (InstanceView {
                params: spec_create_params(window@, debug_strategy, vulkan_api_version),
                vk_api_version: vulkan_api_version,
                shared_refs: 0,
            }),
    {
        let create_params = InstanceCreateParams::assemble(
            window,
            &debug_strategy,
            vulkan_api_version,
        );
        InstanceForWindow { create_params, vk_api_version: vulkan_api_version, shared_refs: 0 }
    }

    /// The development default: version 1.1 under the fail-fast strategy.
    pub fn with_window(window: WindowDisplay) -> (r: Self)
        ensures
            r@ == (InstanceView {
                params: spec_create_params(
                    window@,
                    VulkanDebugInfoStrategy::PanicOnErrorsPrintOthers(
                        DebugCallback::PanicOnErrorsPrintOthers,
                    ),
                    VulkanApiVersion::V1_1,
                ),
                vk_api_version: VulkanApiVersion::V1_1,
                shared_refs: 0,
            }),
    {
        Self::new(
            window,
            VulkanDebugInfoStrategy::default_panic_on_errors(),
            VulkanApiVersion::V1_1,
        )
    }

    /// The API version the instance was created with.
    pub fn api_version(&self) -> (r: VulkanApiVersion)
        ensures
            r == self@.vk_api_version,
    {
        self.vk_api_version
    }

    /// The parameters the instance was created with.
    pub fn create_info(&self) -> (r: &InstanceCreateParams)
        ensures
            r@ == self@.params,
    {
        &self.create_params
    }

    /// Hands out one more shared reference to the raw instance.
    pub fn handle(&mut self) -> (r: SharedInstanceRef)
        requires
            old(self)@.shared_refs < u64::MAX,
        ensures
            final(self)@ == (InstanceView {
                params: old(self)@.params,
                vk_api_version: old(self)@.vk_api_version,
                shared_refs: (old(self)@.shared_refs + 1) as nat,
            }),
    {
        self.shared_refs = self.shared_refs + 1;
        SharedInstanceRef { _token: () }
    }

    /// Takes one shared reference back.
    pub fn release_handle(&mut self, shared: SharedInstanceRef)
        requires
            old(self)@.shared_refs > 0,
        ensures
            final(self)@ == (InstanceView {
                params: old(self)@.params,
                vk_api_version: old(self)@.vk_api_version,
                shared_refs: (old(self)@.shared_refs - 1) as nat,
            }),
    {
        let SharedInstanceRef { _token } = shared;
        self.shared_refs = self.shared_refs - 1;
    }

    /// Releases the owning handle. When no shared reference is out this
    /// succeeds with the ordered teardown steps — the messenger, if one
    /// exists, strictly before the instance; when one is out it is an
    /// ownership violation reporting how many are still alive.
    pub fn release(self) -> (r: Result<Vec<TeardownStep>, OwnershipViolation>)
        ensures
            r is Ok <==> self@.shared_refs == 0,
            r is Ok ==> r->Ok_0@ == spec_teardown_steps(self@.params.messenger is Some),
            r is Err ==> r->Err_0.shared_refs as nat == self@.shared_refs,
    {
        if self.shared_refs == 0 {
            let mut steps: Vec<TeardownStep> = Vec::new();
            if self.create_params.messenger.is_some() {
                steps.push(TeardownStep::DestroyDebugUtilsMessenger);
            }
            steps.push(TeardownStep::DestroyInstance);
            proof {
                assert(steps@ =~= spec_teardown_steps(self@.params.messenger is Some));
            }
            Ok(steps)
        } else {
            Err(OwnershipViolation { shared_refs: self.shared_refs })
        }
    }
}

/// Law: whenever a messenger exists, teardown destroys it strictly before the
/// instance, and destroys each exactly once.
pub proof fn lemma_messenger_destroyed_before_instance()
    ensures
        spec_teardown_steps(true).len() == 2,
        spec_teardown_steps(true)[0] == TeardownStep::DestroyDebugUtilsMessenger,
        spec_teardown_steps(true)[1] == TeardownStep::DestroyInstance,
        spec_teardown_steps(false) =~= seq![TeardownStep::DestroyInstance],
{
}

} // verus!
