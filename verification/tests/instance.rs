use vulkan_render::debug::DebugCallback;
use vulkan_render::extensions::WindowDisplay;
use vulkan_render::instance::{
    InstanceForWindow, TeardownStep, VulkanApiVersion, VulkanDebugInfoStrategy,
};

fn surface_names() -> Vec<String> {
    vec!["VK_KHR_surface".to_string(), "VK_KHR_wayland_surface".to_string()]
}

fn display(names: Vec<String>) -> WindowDisplay {
    WindowDisplay::from_surface_extensions(names)
}

#[test]
fn recorded_api_version_for_all_versions_idle() {
    let versions = vec![
        VulkanApiVersion::V1_0,
        VulkanApiVersion::V1_1,
        VulkanApiVersion::V1_2,
        VulkanApiVersion::V1_3,
    ];
    for version in versions {
        let instance = InstanceForWindow::new(
            display(surface_names()),
            VulkanDebugInfoStrategy::Idle,
            version,
        );
        assert_eq!(instance.api_version(), version);
        assert!(instance.release().is_ok());
    }
}

#[test]
fn encoded_versions_match_loader() {
    assert_eq!(VulkanApiVersion::V1_0.encode(), ash::vk::API_VERSION_1_0);
    assert_eq!(VulkanApiVersion::V1_1.encode(), ash::vk::API_VERSION_1_1);
    assert_eq!(VulkanApiVersion::V1_2.encode(), ash::vk::API_VERSION_1_2);
    assert_eq!(VulkanApiVersion::V1_3.encode(), ash::vk::API_VERSION_1_3);
}

#[test]
fn idle_extension_list_has_no_debug_utils() {
    let instance = InstanceForWindow::new(
        display(surface_names()),
        VulkanDebugInfoStrategy::Idle,
        VulkanApiVersion::V1_1,
    );
    let extensions = &instance.create_info().enabled_extensions;
    assert_eq!(
        extensions,
        &vec![
            "VK_KHR_surface".to_string(),
            "VK_KHR_wayland_surface".to_string(),
            "VK_KHR_portability_enumeration".to_string(),
            "VK_KHR_get_physical_device_properties2".to_string(),
        ]
    );
    assert!(!extensions.iter().any(|e| e == "VK_EXT_debug_utils"));
}

#[test]
fn non_idle_extension_lists_have_debug_utils() {
    let strategies = vec![
        VulkanDebugInfoStrategy::default_print_all(),
        VulkanDebugInfoStrategy::default_panic_on_errors(),
    ];
    for strategy in strategies {
        let instance = InstanceForWindow::new(
            display(surface_names()),
            strategy,
            VulkanApiVersion::V1_1,
        );
        let extensions = &instance.create_info().enabled_extensions;
        assert_eq!(
            extensions,
            &vec![
                "VK_KHR_surface".to_string(),
                "VK_KHR_wayland_surface".to_string(),
                "VK_KHR_portability_enumeration".to_string(),
                "VK_KHR_get_physical_device_properties2".to_string(),
                "VK_EXT_debug_utils".to_string(),
            ]
        );
        assert_eq!(
            extensions.last().map(String::as_str),
            ash::vk::EXT_DEBUG_UTILS_NAME.to_str().ok()
        );
    }
}

#[test]
fn layer_list_exactly_validation_layer() {
    let idle = InstanceForWindow::new(
        display(surface_names()),
        VulkanDebugInfoStrategy::Idle,
        VulkanApiVersion::V1_0,
    );
    assert!(idle.create_info().enabled_layers.is_empty());
    let strategies = vec![
        VulkanDebugInfoStrategy::default_print_all(),
        VulkanDebugInfoStrategy::default_panic_on_errors(),
    ];
    for strategy in strategies {
        let instance = InstanceForWindow::new(
            display(surface_names()),
            strategy,
            VulkanApiVersion::V1_0,
        );
        assert_eq!(
            instance.create_info().enabled_layers,
            vec!["VK_LAYER_KHRONOS_validation".to_string()]
        );
    }
}

#[test]
fn create_flags_enable_portability_enumeration() {
    let instance = InstanceForWindow::new(
        display(surface_names()),
        VulkanDebugInfoStrategy::Idle,
        VulkanApiVersion::V1_3,
    );
    assert_eq!(
        instance.create_info().create_flags,
        ash::vk::InstanceCreateFlags::ENUMERATE_PORTABILITY_KHR.as_raw()
    );
}

#[test]
fn messenger_params_follow_strategy() {
    let idle = InstanceForWindow::new(
        display(surface_names()),
        VulkanDebugInfoStrategy::Idle,
        VulkanApiVersion::V1_1,
    );
    assert!(idle.create_info().messenger.is_none());

    let printing = InstanceForWindow::new(
        display(surface_names()),
        VulkanDebugInfoStrategy::default_print_all(),
        VulkanApiVersion::V1_1,
    );
    let params = printing.create_info().messenger.expect("messenger params expected");
    assert_eq!(params.callback, DebugCallback::PrintAll);
    let expected_severities = ash::vk::DebugUtilsMessageSeverityFlagsEXT::ERROR
        | ash::vk::DebugUtilsMessageSeverityFlagsEXT::WARNING
        | ash::vk::DebugUtilsMessageSeverityFlagsEXT::INFO;
    assert_eq!(params.message_severity_mask, expected_severities.as_raw());
    let expected_types = ash::vk::DebugUtilsMessageTypeFlagsEXT::GENERAL
        | ash::vk::DebugUtilsMessageTypeFlagsEXT::VALIDATION
        | ash::vk::DebugUtilsMessageTypeFlagsEXT::PERFORMANCE;
    assert_eq!(params.message_type_mask, expected_types.as_raw());
}

#[test]
fn teardown_destroys_messenger_before_instance() {
    let instance = InstanceForWindow::new(
        display(surface_names()),
        VulkanDebugInfoStrategy::default_panic_on_errors(),
        VulkanApiVersion::V1_1,
    );
    let steps = instance.release().expect("no shared reference is out");
    assert_eq!(
        steps,
        vec![TeardownStep::DestroyDebugUtilsMessenger, TeardownStep::DestroyInstance]
    );
}

#[test]
fn teardown_without_messenger_destroys_instance_only() {
    let instance = InstanceForWindow::new(
        display(surface_names()),
        VulkanDebugInfoStrategy::Idle,
        VulkanApiVersion::V1_1,
    );
    let steps = instance.release().expect("no shared reference is out");
    assert_eq!(steps, vec![TeardownStep::DestroyInstance]);
}

#[test]
fn release_while_shared_is_ownership_violation() {
    let strategies = vec![
        VulkanDebugInfoStrategy::Idle,
        VulkanDebugInfoStrategy::default_print_all(),
        VulkanDebugInfoStrategy::default_panic_on_errors(),
    ];
    for strategy in strategies {
        let mut instance = InstanceForWindow::new(
            display(surface_names()),
            strategy,
            VulkanApiVersion::V1_2,
        );
        let _shared = instance.handle();
        let violation = match instance.release() {
            Ok(_) => panic!("release must fail while a shared reference is alive"),
            Err(violation) => violation,
        };
        assert_eq!(violation.shared_refs, 1);
        assert_eq!(
            violation.message(),
            "Attempted to drop instance while being used by others"
        );
    }
}

#[test]
fn release_succeeds_after_shared_reference_returned() {
    let mut instance = InstanceForWindow::new(
        display(surface_names()),
        VulkanDebugInfoStrategy::default_print_all(),
        VulkanApiVersion::V1_2,
    );
    let shared = instance.handle();
    instance.release_handle(shared);
    assert!(instance.release().is_ok());
}

#[test]
fn with_window_uses_panic_on_errors_and_v1_1() {
    let instance = InstanceForWindow::with_window(display(surface_names()));
    assert_eq!(instance.api_version(), VulkanApiVersion::V1_1);
    let info = instance.create_info();
    assert_eq!(
        info.messenger.map(|m| m.callback),
        Some(DebugCallback::PanicOnErrorsPrintOthers)
    );
    assert_eq!(info.packed_api_version, ash::vk::API_VERSION_1_1);
    assert!(info.enabled_extensions.iter().any(|e| e == "VK_EXT_debug_utils"));
    assert_eq!(info.enabled_layers, vec!["VK_LAYER_KHRONOS_validation".to_string()]);
    let steps = instance.release().expect("clean teardown with no residual references");
    assert_eq!(
        steps,
        vec![TeardownStep::DestroyDebugUtilsMessenger, TeardownStep::DestroyInstance]
    );
}
