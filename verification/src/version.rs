//! Decoding a packed Vulkan API version into its dotted text.

use vstd::prelude::*;

verus! {

/// Major part of a packed version: bits 22 to 28.
pub open spec fn major_of(version: u32) -> u32 {
    (version >> 22u32) & 0x7fu32
}

/// Minor part of a packed version: bits 12 to 21.
pub open spec fn minor_of(version: u32) -> u32 {
    (version >> 12u32) & 0x3ffu32
}

/// Patch part of a packed version: the low 12 bits.
pub open spec fn patch_of(version: u32) -> u32 {
    version & 0xfffu32
}

/// The character of a single decimal digit.
pub open spec fn digit(value: nat) -> char
    recommends
        value < 10,
{
    seq!['0', '1', '2', '3', '4', '5', '6', '7', '8', '9'][value as int]
}

/// The decimal numeral of `value`, without sign or leading zeros.
pub open spec fn decimal(value: nat) -> Seq<char>
    decreases value,
{
    if value < 10 {
        seq![digit(value)]
    } else {
        decimal(value / 10).push(digit(value % 10))
    }
}

/// Three numerals joined by dots, as in `1.3.250`.
pub open spec fn dotted(major: nat, minor: nat, patch: nat) -> Seq<char> {
    decimal(major) + seq!['.'] + decimal(minor) + seq!['.'] + decimal(patch)
}

/// The text of a packed version: `major.minor.patch` in decimal.
pub open spec fn version_text(version: u32) -> Seq<char> {
    dotted(major_of(version) as nat, minor_of(version) as nat, patch_of(version) as nat)
}

/// The parts of a packed version are bounded by their bit widths, whatever
/// the packed value is.
pub proof fn lemma_version_parts_bounded(version: u32)
    ensures
        major_of(version) <= 0x7f,
        minor_of(version) <= 0x3ff,
        patch_of(version) <= 0xfff,
{
    assert((version >> 22u32) & 0x7fu32 <= 0x7fu32) by (bit_vector);
    assert((version >> 12u32) & 0x3ffu32 <= 0x3ffu32) by (bit_vector);
    assert(version & 0xfffu32 <= 0xfffu32) by (bit_vector);
}

/// The parts read as arithmetic: the patch counts in units of one, the
/// minor in units of 4096, the major in units of 4096 * 1024, and whatever
/// lies above the major part does not count.
pub proof fn lemma_version_parts_arithmetic(version: u32)
    ensures
        major_of(version) == (version / 0x40_0000) % 0x80,
        minor_of(version) == (version / 0x1000) % 0x400,
        patch_of(version) == version % 0x1000,
{
    assert((version >> 22u32) & 0x7fu32 == (version / 0x40_0000u32) % 0x80u32) by (bit_vector);
    assert((version >> 12u32) & 0x3ffu32 == (version / 0x1000u32) % 0x400u32) by (bit_vector);
    assert(version & 0xfffu32 == version % 0x1000u32) by (bit_vector);
}

/// Formats three numbers with `format!("{}.{}.{}", ..)`.
///
/// Trusted: the `Display` of `u32` writes the decimal numeral of the value,
/// and the literal parts of the format string are copied as they stand.
#[verifier::external_body]
fn format_dotted(major: u32, minor: u32, patch: u32) -> (text: String)
    ensures
        text@ == dotted(major as nat, minor as nat, patch as nat),
{
    format!("{}.{}.{}", major, minor, patch)
}

/// Renders a packed version as `major.minor.patch`.
pub fn version_string(version: u32) -> (text: String)
    ensures
        text@ == version_text(version),
{
    let major = ash::vk::api_version_major(version);
    let minor = ash::vk::api_version_minor(version);
    let patch = ash::vk::api_version_patch(version);
    format_dotted(major, minor, patch)
}

/// Describes the instance version a loader reported.  A loader that
/// answers with a version yields its text; one that predates the query, or
/// fails it, yields nothing.
pub fn vulkan_version(reported: Result<Option<u32>, ash::vk::Result>) -> (text: Option<String>)
    ensures
        match reported {
            Ok(Some(version)) => text matches Some(rendered) && rendered@ == version_text(version),
            _ => text is None,
        },
{
    match reported {
        Ok(Some(version)) => Some(version_string(version)),
        Ok(None) => None,
        Err(_) => None,
    }
}

} // verus!
