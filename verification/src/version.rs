//! Packed API version numbers and the version agreed on at start-up.

use vstd::prelude::*;

verus! {

/// The packed form of a version: major in bits 22..29, minor in bits 12..22,
/// patch in bits 0..12, variant 0.
pub open spec fn packed_version(major: u32, minor: u32, patch: u32) -> u32 {
    (major << 22u32) | (minor << 12u32) | patch
}

/// The major part of a packed version.
pub open spec fn version_major(version: u32) -> u32 {
    (version >> 22u32) & 0x7fu32
}

/// The minor part of a packed version.
pub open spec fn version_minor(version: u32) -> u32 {
    (version >> 12u32) & 0x3ffu32
}

/// The patch part of a packed version.
pub open spec fn version_patch(version: u32) -> u32 {
    version & 0xfffu32
}

/// The packed form of a version of the given variant: the variant in bits
/// 29..32, above the major part.
pub open spec fn packed_variant_version(variant: u32, major: u32, minor: u32, patch: u32) -> u32 {
    (variant << 29u32) | (major << 22u32) | (minor << 12u32) | patch
}

/// Calls `ash::vk::make_api_version`. The contract repeats the shifts and
/// ors of that function.
#[verifier::external_body]
fn pack_version(variant: u32, major: u32, minor: u32, patch: u32) -> (version: u32)
    ensures
        version == packed_variant_version(variant, major, minor, patch),
{
    ash::vk::make_api_version(variant, major, minor, patch)
}

/// Calls `ash::vk::api_version_major`: bits 22..29 of the packed version.
#[verifier::external_body]
fn unpack_major(version: u32) -> (major: u32)
    ensures
        major == version_major(version),
{
    ash::vk::api_version_major(version)
}

/// Calls `ash::vk::api_version_minor`: bits 12..22 of the packed version.
#[verifier::external_body]
fn unpack_minor(version: u32) -> (minor: u32)
    ensures
        minor == version_minor(version),
{
    ash::vk::api_version_minor(version)
}

/// Calls `ash::vk::api_version_patch`: bits 0..12 of the packed version.
#[verifier::external_body]
fn unpack_patch(version: u32) -> (patch: u32)
    ensures
        patch == version_patch(version),
{
    ash::vk::api_version_patch(version)
}

/// Packs a version triple into one number.
pub fn make_api_version(major: u32, minor: u32, patch: u32) -> (version: u32)
    ensures
        version == packed_version(major, minor, patch),
{
    assert(((0u32 << 29u32) | (major << 22u32) | (minor << 12u32) | patch) == ((major << 22u32) | (
    minor << 12u32) | patch)) by (bit_vector);
    pack_version(0, major, minor, patch)
}

/// The major part of a packed version.
pub fn major_of(version: u32) -> (major: u32)
    ensures
        major == version_major(version),
{
    unpack_major(version)
}

/// The minor part of a packed version.
pub fn minor_of(version: u32) -> (minor: u32)
    ensures
        minor == version_minor(version),
{
    unpack_minor(version)
}

/// The patch part of a packed version.
pub fn patch_of(version: u32) -> (patch: u32)
    ensures
        patch == version_patch(version),
{
    unpack_patch(version)
}

/// Packing keeps the parts: a triple within the field widths is read back
/// unchanged.
pub proof fn lemma_unpack_packed(major: u32, minor: u32, patch: u32)
    requires
        major < 0x80,
        minor < 0x400,
        patch < 0x1000,
    ensures
        version_major(packed_version(major, minor, patch)) == major,
        version_minor(packed_version(major, minor, patch)) == minor,
        version_patch(packed_version(major, minor, patch)) == patch,
{
    assert(((((major << 22u32) | (minor << 12u32) | patch) >> 22u32) & 0x7fu32) == major) by (bit_vector)
        requires
            major < 0x80u32,
            minor < 0x400u32,
            patch < 0x1000u32,
    ;
    assert(((((major << 22u32) | (minor << 12u32) | patch) >> 12u32) & 0x3ffu32) == minor) by (bit_vector)
        requires
            major < 0x80u32,
            minor < 0x400u32,
            patch < 0x1000u32,
    ;
    assert((((major << 22u32) | (minor << 12u32) | patch) & 0xfffu32) == patch) by (bit_vector)
        requires
            major < 0x80u32,
            minor < 0x400u32,
            patch < 0x1000u32,
    ;
}

/// Packed versions of triples within the field widths are ordered as the
/// triples are, major first.
pub proof fn lemma_packed_order(a: (u32, u32, u32), b: (u32, u32, u32))
    requires
        a.0 < 0x80 && a.1 < 0x400 && a.2 < 0x1000,
        b.0 < 0x80 && b.1 < 0x400 && b.2 < 0x1000,
    ensures
        packed_version(a.0, a.1, a.2) < packed_version(b.0, b.1, b.2) <==> (a.0 < b.0 || (a.0
            == b.0 && (a.1 < b.1 || (a.1 == b.1 && a.2 < b.2)))),
{
    let (x, y, z) = a;
    let (u, v, w) = b;
    assert((((x << 22u32) | (y << 12u32) | z) < ((u << 22u32) | (v << 12u32) | w)) <==> (x < u
        || (x == u && (y < v || (y == v && z < w))))) by (bit_vector)
        requires
            x < 0x80u32 && y < 0x400u32 && z < 0x1000u32,
            u < 0x80u32 && v < 0x400u32 && w < 0x1000u32,
    ;
}

} // verus!
