//! Trusted access to the constants of the `ash` Vulkan bindings that the
//! bootstrap logic depends on: extension name strings, packed API version
//! numbers, and the raw bits of the flag types used for instance creation and
//! debug-messenger subscription.

use vstd::prelude::*;

verus! {

/// The extension name `VK_KHR_portability_enumeration`.
pub open spec fn spec_portability_enumeration_name() -> Seq<char> {
    "VK_KHR_portability_enumeration"@
}

/// The extension name `VK_KHR_get_physical_device_properties2`.
pub open spec fn spec_get_physical_device_properties2_name() -> Seq<char> {
    "VK_KHR_get_physical_device_properties2"@
}

/// The extension name `VK_EXT_debug_utils`.
pub open spec fn spec_debug_utils_name() -> Seq<char> {
    "VK_EXT_debug_utils"@
}

/// Relies on ash's `vk::KHR_PORTABILITY_ENUMERATION_NAME`: the C string
/// literal `VK_KHR_portability_enumeration`.
#[verifier::external_body]
pub(crate) fn portability_enumeration_name() -> (r: String)
    ensures
        r@ == spec_portability_enumeration_name(),
{
    ash::vk::KHR_PORTABILITY_ENUMERATION_NAME.to_str().unwrap().to_owned()
}

/// Relies on ash's `vk::KHR_GET_PHYSICAL_DEVICE_PROPERTIES2_NAME`: the C
/// string literal `VK_KHR_get_physical_device_properties2`.
#[verifier::external_body]
pub(crate) fn get_physical_device_properties2_name() -> (r: String)
    ensures
        r@ == spec_get_physical_device_properties2_name(),
{
    ash::vk::KHR_GET_PHYSICAL_DEVICE_PROPERTIES2_NAME.to_str().unwrap().to_owned()
}

/// Relies on ash's `vk::EXT_DEBUG_UTILS_NAME`: the C string literal
/// `VK_EXT_debug_utils`.
#[verifier::external_body]
pub(crate) fn debug_utils_name() -> (r: String)
    ensures
        r@ == spec_debug_utils_name(),
{
    ash::vk::EXT_DEBUG_UTILS_NAME.to_str().unwrap().to_owned()
}

/// Relies on ash's `vk::API_VERSION_1_0`: the packed Vulkan version
/// `(1 << 22) | (0 << 12)`.
#[verifier::external_body]
pub(crate) fn packed_api_version_1_0() -> (r: u32)
    ensures
        r == 0x40_0000u32,
{
    ash::vk::API_VERSION_1_0
}

/// Relies on ash's `vk::API_VERSION_1_1`: the packed Vulkan version
/// `(1 << 22) | (1 << 12)`.
#[verifier::external_body]
pub(crate) fn packed_api_version_1_1() -> (r: u32)
    ensures
        r == 0x40_1000u32,
{
    ash::vk::API_VERSION_1_1
}

/// Relies on ash's `vk::API_VERSION_1_2`: the packed Vulkan version
/// `(1 << 22) | (2 << 12)`.
#[verifier::external_body]
pub(crate) fn packed_api_version_1_2() -> (r: u32)
    ensures
        r == 0x40_2000u32,
{
    ash::vk::API_VERSION_1_2
}

/// Relies on ash's `vk::API_VERSION_1_3`: the packed Vulkan version
/// `(1 << 22) | (3 << 12)`.
#[verifier::external_body]
pub(crate) fn packed_api_version_1_3() -> (r: u32)
    ensures
        r == 0x40_3000u32,
{
    ash::vk::API_VERSION_1_3
}

/// Relies on ash's `vk::InstanceCreateFlags::ENUMERATE_PORTABILITY_KHR`:
/// the flag bit `0b1`.
#[verifier::external_body]
pub(crate) fn enumerate_portability_flag_bit() -> (r: u32)
    ensures
        r == 0x1u32,
{
    ash::vk::InstanceCreateFlags::ENUMERATE_PORTABILITY_KHR.as_raw()
}

/// Relies on ash's `vk::DebugUtilsMessageSeverityFlagsEXT::ERROR`: the flag
/// bit `0b1_0000_0000_0000`.
#[verifier::external_body]
pub(crate) fn severity_error_bit() -> (r: u32)
    ensures
        r == 0x1000u32,
{
    ash::vk::DebugUtilsMessageSeverityFlagsEXT::ERROR.as_raw()
}

/// Relies on ash's `vk::DebugUtilsMessageSeverityFlagsEXT::WARNING`: the flag
/// bit `0b1_0000_0000`.
#[verifier::external_body]
pub(crate) fn severity_warning_bit() -> (r: u32)
    ensures
        r == 0x100u32,
{
    ash::vk::DebugUtilsMessageSeverityFlagsEXT::WARNING.as_raw()
}

/// Relies on ash's `vk::DebugUtilsMessageSeverityFlagsEXT::INFO`: the flag
/// bit `0b1_0000`.
#[verifier::external_body]
pub(crate) fn severity_info_bit() -> (r: u32)
    ensures
        r == 0x10u32,
{
    ash::vk::DebugUtilsMessageSeverityFlagsEXT::INFO.as_raw()
}

/// Relies on ash's `vk::DebugUtilsMessageTypeFlagsEXT::GENERAL`: the flag
/// bit `0b1`.
#[verifier::external_body]
pub(crate) fn type_general_bit() -> (r: u32)
    ensures
        r == 0x1u32,
{
    ash::vk::DebugUtilsMessageTypeFlagsEXT::GENERAL.as_raw()
}

/// Relies on ash's `vk::DebugUtilsMessageTypeFlagsEXT::VALIDATION`: the flag
/// bit `0b10`.
#[verifier::external_body]
pub(crate) fn type_validation_bit() -> (r: u32)
    ensures
        r == 0x2u32,
{
    ash::vk::DebugUtilsMessageTypeFlagsEXT::VALIDATION.as_raw()
}

/// Relies on ash's `vk::DebugUtilsMessageTypeFlagsEXT::PERFORMANCE`: the flag
/// bit `0b100`.
#[verifier::external_body]
pub(crate) fn type_performance_bit() -> (r: u32)
    ensures
        r == 0x4u32,
{
    ash::vk::DebugUtilsMessageTypeFlagsEXT::PERFORMANCE.as_raw()
}

} // verus!
