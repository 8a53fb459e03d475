//! Texel and vertex-attribute formats, by their numeric codes.

use vstd::prelude::*;

verus! {

/// A data format, identified by the code the graphics API gives it.
#[derive(Clone, Copy, Debug, PartialEq, Eq, Structural)]
pub struct Format {
    pub raw: i32,
}

pub const R8_UINT: i32 = 13;
pub const R8_SINT: i32 = 14;
pub const R8G8_UINT: i32 = 20;
pub const R8G8_SINT: i32 = 21;
pub const R8G8B8_UINT: i32 = 27;
pub const R8G8B8_SINT: i32 = 28;
pub const R8G8B8A8_UINT: i32 = 41;
pub const R8G8B8A8_SINT: i32 = 42;
pub const B8G8R8A8_UNORM: i32 = 44;
pub const R16_UINT: i32 = 74;
pub const R16_SINT: i32 = 75;
pub const R16G16_UINT: i32 = 81;
pub const R16G16_SINT: i32 = 82;
pub const R16G16B16_UINT: i32 = 88;
pub const R16G16B16_SINT: i32 = 89;
pub const R16G16B16A16_UINT: i32 = 95;
pub const R16G16B16A16_SINT: i32 = 96;
pub const R32_UINT: i32 = 98;
pub const R32_SFLOAT: i32 = 100;
pub const R32G32_UINT: i32 = 101;
pub const R32G32_SFLOAT: i32 = 103;
pub const R32G32B32_UINT: i32 = 104;
pub const R32G32B32_SFLOAT: i32 = 106;
pub const R32G32B32A32_UINT: i32 = 107;
pub const R32G32B32A32_SFLOAT: i32 = 109;
pub const D32_SFLOAT: i32 = 126;
pub const D24_UNORM_S8_UINT: i32 = 129;
pub const D32_SFLOAT_S8_UINT: i32 = 130;

/// The colour space in which 8-bit sRGB surfaces are presented.
pub const COLOR_SPACE_SRGB_NONLINEAR: i32 = 0;

impl Format {
    /// The format with the given code.
    pub fn from_raw(raw: i32) -> (format: Self)
        ensures
            format.raw == raw,
    {
        Format { raw }
    }

    /// The format's code.
    pub fn as_raw(&self) -> (raw: i32)
        ensures
            raw == self.raw,
    {
        self.raw
    }
}

/// How an image's texels are laid out in memory.
#[derive(Clone, Copy, Debug, PartialEq, Eq, Structural)]
pub enum ImageTiling {
    Optimal,
    Linear,
    /// A layout this library has no name for, by its code.
    Other(i32),
}

/// What a physical device can do with a format, as feature bit sets, one for
/// each tiling.
#[derive(Clone, Copy, Debug, PartialEq, Eq, Structural)]
pub struct FormatProperties {
    pub linear_tiling_features: u32,
    pub optimal_tiling_features: u32,
}

/// Feature bit: usable as a depth/stencil attachment.
pub const FEATURE_DEPTH_STENCIL_ATTACHMENT: u32 = 0x200;

} // verus!
