//! The extension negotiator: from the surface extensions a window's platform
//! requires, it builds the full instance-extension list (always appending the
//! two portability extensions, and the debug-utils extension when a debug
//! strategy is active) and the layer list (the standard validation layer when
//! a debug strategy is active, nothing otherwise).

use crate::instance::VulkanDebugInfoStrategy;
use crate::vk_api;
use vstd::prelude::*;

verus! {

/// The display-handle abstraction the bootstrap pulls from the windowing
/// collaborator: the only data it needs from a window is the list of instance
/// extensions required to create a surface on the window's platform.
pub struct WindowDisplay {
    surface_extensions: Vec<String>,
}

impl View for WindowDisplay {
    type V = Seq<Seq<char>>;

    closed spec fn view(&self) -> Seq<Seq<char>> {
        self.surface_extensions.deep_view()
    }
}

impl WindowDisplay {
    /// Wraps the surface-extension names reported for a window's platform.
    pub fn from_surface_extensions(surface_extensions: Vec<String>) -> (r: Self)
        ensures
            r@ == surface_extensions.deep_view(),
    {
        WindowDisplay { surface_extensions }
    }

    pub fn surface_extensions(&self) -> (r: &Vec<String>)
        ensures
            r.deep_view() == self@,
    {
        &self.surface_extensions
    }
}

/// The name of the standard validation layer.
pub open spec fn spec_validation_layer_name() -> Seq<char> {
    "VK_LAYER_KHRONOS_validation"@
}

pub fn validation_layer_name() -> (r: String)
    ensures
        r@ == spec_validation_layer_name(),
{
    "VK_LAYER_KHRONOS_validation".to_owned()
}

/// The full instance-extension list for a platform's surface extensions: the
/// surface extensions in their reported order, then the two portability
/// extensions, then — under a non-Idle strategy — the debug-utils extension.
pub open spec fn spec_required_extensions(surface: Seq<Seq<char>>, idle: bool) -> Seq<Seq<char>> {
    let base = surface.push(vk_api::spec_portability_enumeration_name()).push(
        vk_api::spec_get_physical_device_properties2_name(),
    );
    if idle {
        base
    } else {
        base.push(vk_api::spec_debug_utils_name())
    }
}

/// The layer list: empty under `Idle`, exactly the standard validation layer
/// under the two debug-reporting strategies.
pub open spec fn spec_enabled_layers(idle: bool) -> Seq<Seq<char>> {
    if idle {
        Seq::<Seq<char>>::empty()
    } else {
        seq![spec_validation_layer_name()]
    }
}

/// Appends one extension or layer name, tracked at the level of character
/// sequences.
fn push_name(names: &mut Vec<String>, name: String)
    ensures
        final(names).deep_view() == old(names).deep_view().push(name@),
{
    let ghost appended = name;
    names.push(name);
    proof {
        assert forall|j: int| 0 <= j < names.deep_view().len() implies names.deep_view()[j] == old(
            names,
        ).deep_view().push(appended@)[j] by {
            assert(names.deep_view()[j] == names@[j]@);
            if j < old(names)@.len() {
                assert(names@[j] == old(names)@[j]);
                assert(old(names).deep_view()[j] == old(names)@[j]@);
            } else {
                assert(names@[j] == appended);
            }
        }
        assert(names.deep_view() =~= old(names).deep_view().push(appended@));
    }
}

/// Builds the instance-extension list, exactly as `spec_required_extensions`
/// states it.
pub fn required_extensions(window: WindowDisplay, debug_strategy: &VulkanDebugInfoStrategy) -> (r:
    Vec<String>)
    ensures
        r.deep_view() == spec_required_extensions(window@, debug_strategy.is_idle_spec()),
{
    let WindowDisplay { surface_extensions: mut names } = window;
    push_name(&mut names, vk_api::portability_enumeration_name());
    push_name(&mut names, vk_api::get_physical_device_properties2_name());
    if !debug_strategy.is_idle() {
        push_name(&mut names, vk_api::debug_utils_name());
    }
    names
}

/// Builds the layer list, exactly as `spec_enabled_layers` states it.
pub fn enabled_layers(debug_strategy: &VulkanDebugInfoStrategy) -> (r: Vec<String>)
    ensures
        r.deep_view() == spec_enabled_layers(debug_strategy.is_idle_spec()),
{
    let mut names: Vec<String> = Vec::new();
    if !debug_strategy.is_idle() {
        push_name(&mut names, validation_layer_name());
    }
    proof {
        assert(names.deep_view() =~= spec_enabled_layers(debug_strategy.is_idle_spec()));
    }
    names
}

/// Law: the negotiated extension list contains the debug-utils extension name
/// exactly when the strategy is not `Idle`, provided the platform's own
/// surface extensions do not already carry that name (a platform reports only
/// surface extensions, never the debug-utils extension).
pub proof fn lemma_debug_utils_extension_iff(
    surface: Seq<Seq<char>>,
    debug_strategy: VulkanDebugInfoStrategy,
)
    requires
        !surface.contains(vk_api::spec_debug_utils_name()),
    ensures
        spec_required_extensions(surface, debug_strategy.is_idle_spec()).contains(
            vk_api::spec_debug_utils_name(),
        ) <==> !debug_strategy.is_idle_spec(),
{
    reveal_strlit("VK_KHR_portability_enumeration");
    reveal_strlit("VK_KHR_get_physical_device_properties2");
    reveal_strlit("VK_EXT_debug_utils");
    assert(vk_api::spec_portability_enumeration_name().len() == 30);
    assert(vk_api::spec_get_physical_device_properties2_name().len() == 38);
    assert(vk_api::spec_debug_utils_name().len() == 18);
    let exts = spec_required_extensions(surface, debug_strategy.is_idle_spec());
    if debug_strategy.is_idle_spec() {
        assert forall|i: int| 0 <= i < exts.len() implies exts[i]
            != vk_api::spec_debug_utils_name() by {
            if i < surface.len() {
                assert(exts[i] == surface[i]);
                if surface[i] == vk_api::spec_debug_utils_name() {
                    assert(surface.contains(vk_api::spec_debug_utils_name()));
                }
            }
        }
    } else {
        assert(exts[exts.len() - 1] == vk_api::spec_debug_utils_name());
        assert(exts.contains(vk_api::spec_debug_utils_name()));
    }
}

/// Law: the two debug-reporting strategies enable exactly one layer, the
/// standard validation layer; `Idle` enables none.
pub proof fn lemma_validation_layer_exactly_one(debug_strategy: VulkanDebugInfoStrategy)
    ensures
        !debug_strategy.is_idle_spec() ==> spec_enabled_layers(debug_strategy.is_idle_spec())
            =~= seq![spec_validation_layer_name()],
        debug_strategy.is_idle_spec() ==> spec_enabled_layers(
            debug_strategy.is_idle_spec(),
        ).len() == 0,
{
}

} // verus!
