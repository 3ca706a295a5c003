//! The trusted boundary to the `ash` bindings.
//!
//! Every item here is believed, not proved.  Each one stands for exactly one
//! item of `ash` and states no more than the source of `ash` shows: the
//! bindings define every flag and enumerant as a wrapped integer literal, and
//! `as_raw` hands that integer back unchanged.

use vstd::prelude::*;

verus! {

/// `ash::vk::Result`, the status code a native call hands back.  Opaque
/// here: it is carried through, compared and stored, never looked into.
#[verifier::external_type_specification]
#[verifier::external_body]
pub struct ExNativeResult(ash::vk::Result);

/// `ash::vk::PhysicalDevice`, the handle of a physical device.  Opaque
/// here.
#[verifier::external_type_specification]
#[verifier::external_body]
pub struct ExPhysicalDevice(ash::vk::PhysicalDevice);

/// Raw value of `VK_MEMORY_PROPERTY_HOST_VISIBLE_BIT`.
pub const HOST_VISIBLE: u32 = 0x2;

/// Raw value of `VK_BUFFER_USAGE_VERTEX_BUFFER_BIT`.
pub const VERTEX_BUFFER: u32 = 0x80;

/// Raw value of `VK_SHARING_MODE_EXCLUSIVE`.
pub const SHARING_MODE_EXCLUSIVE: i32 = 0;

/// Raw value of `VK_IMAGE_TYPE_2D`.
pub const IMAGE_TYPE_2D: i32 = 1;

/// Raw value of `VK_IMAGE_TYPE_3D`.
pub const IMAGE_TYPE_3D: i32 = 2;

/// Raw value of `VK_FORMAT_R8G8B8A8_UNORM`.
pub const FORMAT_R8G8B8A8_UNORM: i32 = 37;

/// Raw value of `VK_IMAGE_TILING_LINEAR`.
pub const IMAGE_TILING_LINEAR: i32 = 1;

/// Raw value of `VK_IMAGE_LAYOUT_UNDEFINED`.
pub const IMAGE_LAYOUT_UNDEFINED: i32 = 0;

/// Raw value of `VK_IMAGE_USAGE_COLOR_ATTACHMENT_BIT`.
pub const IMAGE_USAGE_COLOR_ATTACHMENT: u32 = 0x10;

/// Raw value of `VK_SAMPLE_COUNT_1_BIT`.
pub const SAMPLE_COUNT_1: u32 = 0x1;

/// Raw value of `VK_DEBUG_UTILS_MESSAGE_SEVERITY_INFO_BIT_EXT`.
pub const SEVERITY_INFO: u32 = 0x10;

/// Raw value of `VK_DEBUG_UTILS_MESSAGE_SEVERITY_WARNING_BIT_EXT`.
pub const SEVERITY_WARNING: u32 = 0x100;

/// Raw value of `VK_DEBUG_UTILS_MESSAGE_SEVERITY_ERROR_BIT_EXT`.
pub const SEVERITY_ERROR: u32 = 0x1000;

/// Raw value of `VK_DEBUG_UTILS_MESSAGE_TYPE_GENERAL_BIT_EXT`.
pub const MESSAGE_GENERAL: u32 = 0x1;

/// Raw value of `VK_DEBUG_UTILS_MESSAGE_TYPE_VALIDATION_BIT_EXT`.
pub const MESSAGE_VALIDATION: u32 = 0x2;

/// Raw value of `VK_DEBUG_UTILS_MESSAGE_TYPE_PERFORMANCE_BIT_EXT`.
pub const MESSAGE_PERFORMANCE: u32 = 0x4;

/// The name of the debug-utils instance extension.
pub open spec fn debug_utils_name() -> Seq<char> {
    "VK_EXT_debug_utils"@
}

/// Reads `ash::vk::MemoryPropertyFlags::HOST_VISIBLE` as its raw bits.
///
/// Trusted: `ash` defines the flag as `Self(0b10)`.
#[verifier::external_body]
pub(crate) fn host_visible_bits() -> (bits: u32)
    ensures
        bits == HOST_VISIBLE,
{
    ash::vk::MemoryPropertyFlags::HOST_VISIBLE.as_raw()
}

/// Reads `ash::vk::BufferUsageFlags::VERTEX_BUFFER` as its raw bits.
///
/// Trusted: `ash` defines the flag as `Self(0b1000_0000)`.
#[verifier::external_body]
pub(crate) fn vertex_buffer_bits() -> (bits: u32)
    ensures
        bits == VERTEX_BUFFER,
{
    ash::vk::BufferUsageFlags::VERTEX_BUFFER.as_raw()
}

/// Reads `ash::vk::SharingMode::EXCLUSIVE` as its raw value.
///
/// Trusted: `ash` defines the enumerant as `Self(0)`.
#[verifier::external_body]
pub(crate) fn sharing_mode_exclusive() -> (raw: i32)
    ensures
        raw == SHARING_MODE_EXCLUSIVE,
{
    ash::vk::SharingMode::EXCLUSIVE.as_raw()
}

/// Reads `ash::vk::ImageType::TYPE_2D` as its raw value.
///
/// Trusted: `ash` defines the enumerant as `Self(1)`.
#[verifier::external_body]
pub(crate) fn image_type_2d() -> (raw: i32)
    ensures
        raw == IMAGE_TYPE_2D,
{
    ash::vk::ImageType::TYPE_2D.as_raw()
}

/// Reads `ash::vk::ImageType::TYPE_3D` as its raw value.
///
/// Trusted: `ash` defines the enumerant as `Self(2)`.
#[verifier::external_body]
pub(crate) fn image_type_3d() -> (raw: i32)
    ensures
        raw == IMAGE_TYPE_3D,
{
    ash::vk::ImageType::TYPE_3D.as_raw()
}

/// Reads `ash::vk::Format::R8G8B8A8_UNORM` as its raw value.
///
/// Trusted: `ash` defines the enumerant as `Self(37)`.
#[verifier::external_body]
pub(crate) fn format_r8g8b8a8_unorm() -> (raw: i32)
    ensures
        raw == FORMAT_R8G8B8A8_UNORM,
{
    ash::vk::Format::R8G8B8A8_UNORM.as_raw()
}

/// Reads `ash::vk::ImageTiling::LINEAR` as its raw value.
///
/// Trusted: `ash` defines the enumerant as `Self(1)`.
#[verifier::external_body]
pub(crate) fn image_tiling_linear() -> (raw: i32)
    ensures
        raw == IMAGE_TILING_LINEAR,
{
    ash::vk::ImageTiling::LINEAR.as_raw()
}

/// Reads `ash::vk::ImageLayout::UNDEFINED` as its raw value.
///
/// Trusted: `ash` defines the enumerant as `Self(0)`.
#[verifier::external_body]
pub(crate) fn image_layout_undefined() -> (raw: i32)
    ensures
        raw == IMAGE_LAYOUT_UNDEFINED,
{
    ash::vk::ImageLayout::UNDEFINED.as_raw()
}

/// Reads `ash::vk::ImageUsageFlags::COLOR_ATTACHMENT` as its raw bits.
///
/// Trusted: `ash` defines the flag as `Self(0b1_0000)`.
#[verifier::external_body]
pub(crate) fn image_usage_color_attachment() -> (bits: u32)
    ensures
        bits == IMAGE_USAGE_COLOR_ATTACHMENT,
{
    ash::vk::ImageUsageFlags::COLOR_ATTACHMENT.as_raw()
}

/// Reads `ash::vk::SampleCountFlags::TYPE_1` as its raw bits.
///
/// Trusted: `ash` defines the flag as `Self(0b1)`.
#[verifier::external_body]
pub(crate) fn sample_count_1() -> (bits: u32)
    ensures
        bits == SAMPLE_COUNT_1,
{
    ash::vk::SampleCountFlags::TYPE_1.as_raw()
}

/// Reads `ash::vk::DebugUtilsMessageSeverityFlagsEXT::INFO` as its raw bits.
///
/// Trusted: `ash` defines the flag as `Self(0b1_0000)`.
#[verifier::external_body]
pub(crate) fn severity_info() -> (bits: u32)
    ensures
        bits == SEVERITY_INFO,
{
    ash::vk::DebugUtilsMessageSeverityFlagsEXT::INFO.as_raw()
}

/// Reads `ash::vk::DebugUtilsMessageSeverityFlagsEXT::WARNING` as its raw
/// bits.
///
/// Trusted: `ash` defines the flag as `Self(0b1_0000_0000)`.
#[verifier::external_body]
pub(crate) fn severity_warning() -> (bits: u32)
    ensures
        bits == SEVERITY_WARNING,
{
    ash::vk::DebugUtilsMessageSeverityFlagsEXT::WARNING.as_raw()
}

/// Reads `ash::vk::DebugUtilsMessageSeverityFlagsEXT::ERROR` as its raw bits.
///
/// Trusted: `ash` defines the flag as `Self(0b1_0000_0000_0000)`.
#[verifier::external_body]
pub(crate) fn severity_error() -> (bits: u32)
    ensures
        bits == SEVERITY_ERROR,
{
    ash::vk::DebugUtilsMessageSeverityFlagsEXT::ERROR.as_raw()
}

/// Reads `ash::vk::DebugUtilsMessageTypeFlagsEXT::GENERAL` as its raw bits.
///
/// Trusted: `ash` defines the flag as `Self(0b1)`.
#[verifier::external_body]
pub(crate) fn message_general() -> (bits: u32)
    ensures
        bits == MESSAGE_GENERAL,
{
    ash::vk::DebugUtilsMessageTypeFlagsEXT::GENERAL.as_raw()
}

/// Reads `ash::vk::DebugUtilsMessageTypeFlagsEXT::VALIDATION` as its raw
/// bits.
///
/// Trusted: `ash` defines the flag as `Self(0b10)`.
#[verifier::external_body]
pub(crate) fn message_validation() -> (bits: u32)
    ensures
        bits == MESSAGE_VALIDATION,
{
    ash::vk::DebugUtilsMessageTypeFlagsEXT::VALIDATION.as_raw()
}

/// Reads `ash::vk::DebugUtilsMessageTypeFlagsEXT::PERFORMANCE` as its raw
/// bits.
///
/// Trusted: `ash` defines the flag as `Self(0b100)`.
#[verifier::external_body]
pub(crate) fn message_performance() -> (bits: u32)
    ensures
        bits == MESSAGE_PERFORMANCE,
{
    ash::vk::DebugUtilsMessageTypeFlagsEXT::PERFORMANCE.as_raw()
}

/// Copies `ash::extensions::ext::DebugUtils::name()` into a `String`.
///
/// Trusted: `ash` builds the name from the bytes `VK_EXT_debug_utils`
/// followed by the terminating zero, which is no part of the text.
#[verifier::external_body]
pub(crate) fn debug_utils_extension() -> (name: String)
    ensures
        name@ == debug_utils_name(),
{
    ash::extensions::ext::DebugUtils::name().to_string_lossy().into_owned()
}

/// `ash::vk::api_version_major`: bits 22 to 28 of a packed version, as
/// `ash` computes them with `(version >> 22) & 0x7f`.
pub assume_specification[ ash::vk::api_version_major ](version: u32) -> (major: u32)
    ensures
        major == (version >> 22u32) & 0x7fu32,
;

/// `ash::vk::api_version_minor`: bits 12 to 21 of a packed version, as
/// `ash` computes them with `(version >> 12) & 0x3ff`.
pub assume_specification[ ash::vk::api_version_minor ](version: u32) -> (minor: u32)
    ensures
        minor == (version >> 12u32) & 0x3ffu32,
;

/// `ash::vk::api_version_patch`: the low 12 bits of a packed version, as
/// `ash` computes them with `version & 0xfff`.
pub assume_specification[ ash::vk::api_version_patch ](version: u32) -> (patch: u32)
    ensures
        patch == version & 0xfffu32,
;

} // verus!
