//! The values that the library takes from `ash`. Nothing in this file is
//! proved: each contract is read off the crate's source, and the rest of the
//! library is proved from them.

use ash::extensions::ext::DebugUtils;
use ash::vk::{DebugUtilsMessageSeverityFlagsEXT, DebugUtilsMessageTypeFlagsEXT};
use vstd::prelude::*;

verus! {

/// The bit of each message severity in the driver's severity mask.
pub(crate) struct SeverityBits {
    pub verbose: u32,
    pub info: u32,
    pub warning: u32,
    pub error: u32,
}

/// The bit of each message category in the driver's message-type mask.
pub(crate) struct CategoryBits {
    pub general: u32,
    pub validation: u32,
    pub performance: u32,
}

/// `DebugUtilsMessageSeverityFlagsEXT::as_raw` on the four constants
/// `VERBOSE`, `INFO`, `WARNING` and `ERROR`: the values that `ash` declares
/// for them.
#[verifier::external_body]
pub(crate) fn severity_flag_bits() -> (bits: SeverityBits)
    ensures
        bits.verbose == 0x1,
        bits.info == 0x10,
        bits.warning == 0x100,
        bits.error == 0x1000,
{
    SeverityBits {
        verbose: DebugUtilsMessageSeverityFlagsEXT::VERBOSE.as_raw(),
        info: DebugUtilsMessageSeverityFlagsEXT::INFO.as_raw(),
        warning: DebugUtilsMessageSeverityFlagsEXT::WARNING.as_raw(),
        error: DebugUtilsMessageSeverityFlagsEXT::ERROR.as_raw(),
    }
}

/// `DebugUtilsMessageTypeFlagsEXT::as_raw` on the three constants `GENERAL`,
/// `VALIDATION` and `PERFORMANCE`: the values that `ash` declares for them.
#[verifier::external_body]
pub(crate) fn category_flag_bits() -> (bits: CategoryBits)
    ensures
        bits.general == 0x1,
        bits.validation == 0x2,
        bits.performance == 0x4,
{
    CategoryBits {
        general: DebugUtilsMessageTypeFlagsEXT::GENERAL.as_raw(),
        validation: DebugUtilsMessageTypeFlagsEXT::VALIDATION.as_raw(),
        performance: DebugUtilsMessageTypeFlagsEXT::PERFORMANCE.as_raw(),
    }
}

/// `ash::vk::FALSE`, which a callback returns to let the driver call go on.
#[verifier::external_body]
pub(crate) fn vk_false() -> (answer: u32)
    ensures
        answer == 0,
{
    ash::vk::FALSE
}

/// `ash::extensions::ext::DebugUtils::name`: the name of the extension
/// through which the driver delivers its messages, as a `String`.
#[verifier::external_body]
pub(crate) fn debug_utils_name() -> (name: String)
    ensures
        name@ == "VK_EXT_debug_utils"@,
{
    DebugUtils::name().to_string_lossy().into_owned()
}

} // verus!
