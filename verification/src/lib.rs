//! Verified bootstrap logic for a Vulkan instance: extension negotiation for a
//! window surface, debug-strategy selection, instance-creation parameter
//! assembly, debug-callback dispatch, and reference-counted teardown.

pub mod debug;
pub mod extensions;
pub mod instance;
pub mod text;
mod vk_api;
