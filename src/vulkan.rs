//! The values this library takes from ash, each behind a small trusted item.
use ash::vk::DebugUtilsMessageSeverityFlagsEXT as Severity;
use ash::vk::DebugUtilsMessageTypeFlagsEXT as MessageType;
use vstd::prelude::*;
use vstd::string::StringSliceAdditionalSpecFns;

verus! {

/// Name of the instance extension that enumerates portability drivers.
pub const PORTABILITY_ENUMERATION_EXTENSION: &'static str = "VK_KHR_portability_enumeration";

/// A packed Vulkan API version: variant, major, minor and patch numbers.
pub open spec fn api_version(variant: u32, major: u32, minor: u32, patch: u32) -> u32 {
    (variant << 29u32) | (major << 22u32) | (minor << 12u32) | patch
}

/// Relies on `ash::vk::make_api_version`, which packs the four numbers by
/// shifts and bitwise or.
#[verifier::external_body]
pub(crate) fn make_api_version(variant: u32, major: u32, minor: u32, patch: u32) -> (r: u32)
    ensures
        r == api_version(variant, major, minor, patch),
{
    ash::vk::make_api_version(variant, major, minor, patch)
}

/// Relies on `ash::khr::portability_enumeration::NAME`: the extension's name as
/// a NUL-terminated byte string.
#[verifier::external_body]
pub(crate) fn portability_enumeration_name() -> (r: Vec<u8>)
    ensures
        r@ == PORTABILITY_ENUMERATION_EXTENSION.spec_bytes().push(0u8),
{
    ash::khr::portability_enumeration::NAME.to_bytes_with_nul().to_vec()
}

/// Relies on `ash::vk::InstanceCreateFlags::ENUMERATE_PORTABILITY_KHR`, whose
/// raw value is `0b1`.
#[verifier::external_body]
pub(crate) fn enumerate_portability_flag() -> (r: u32)
    ensures
        r == enumerate_portability(),
{
    ash::vk::InstanceCreateFlags::ENUMERATE_PORTABILITY_KHR.as_raw()
}

/// Raw value of the verbose message severity.
pub open spec fn severity_verbose() -> u32 {
    0x1
}

/// Raw value of the informational message severity.
pub open spec fn severity_info() -> u32 {
    0x10
}

/// Raw value of the warning message severity.
pub open spec fn severity_warning() -> u32 {
    0x100
}

/// Raw value of the error message severity.
pub open spec fn severity_error() -> u32 {
    0x1000
}

/// Raw value of the general message type.
pub open spec fn message_type_general() -> u32 {
    0x1
}

/// Raw value of the validation message type.
pub open spec fn message_type_validation() -> u32 {
    0x2
}

/// Raw value of the performance message type.
pub open spec fn message_type_performance() -> u32 {
    0x4
}

/// Raw value of the instance-creation flag that enumerates portability drivers.
pub open spec fn enumerate_portability() -> u32 {
    0x1
}

/// Relies on the four constants of `ash::vk::DebugUtilsMessageSeverityFlagsEXT`:
/// the raw values of `VERBOSE`, `INFO`, `WARNING` and `ERROR`, in that order.
#[verifier::external_body]
pub(crate) fn severity_flags() -> (r: (u32, u32, u32, u32))
    ensures
        r == (severity_verbose(), severity_info(), severity_warning(), severity_error()),
{
    (
        Severity::VERBOSE.as_raw(),
        Severity::INFO.as_raw(),
        Severity::WARNING.as_raw(),
        Severity::ERROR.as_raw(),
    )
}

/// Relies on the three constants of `ash::vk::DebugUtilsMessageTypeFlagsEXT`:
/// the raw values of `GENERAL`, `VALIDATION` and `PERFORMANCE`, in that order.
#[verifier::external_body]
pub(crate) fn message_type_flags() -> (r: (u32, u32, u32))
    ensures
        r == (message_type_general(), message_type_validation(), message_type_performance()),
{
    (MessageType::GENERAL.as_raw(), MessageType::VALIDATION.as_raw(), MessageType::PERFORMANCE.as_raw())
}

/// Relies on `ash::vk::FALSE`, the `Bool32` false value, which is `0`.
#[verifier::external_body]
pub(crate) fn vk_false() -> (r: u32)
    ensures
        r == 0,
{
    ash::vk::FALSE
}

} // verus!
