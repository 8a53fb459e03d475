//! Views onto images: which part of an image is seen, and as what.

use vstd::prelude::*;
use crate::format::Format;

verus! {

/// Aspect bit: the colour part of an image.
pub const ASPECT_COLOR: u32 = 1;

/// Aspect bit: the depth part of an image.
pub const ASPECT_DEPTH: u32 = 2;

/// The dimensionality of a view.
#[derive(Clone, Copy, Debug, PartialEq, Eq, Structural)]
pub enum ImageViewType {
    Type1D,
    Type2D,
    Type3D,
    Cube,
}

/// What a view is to be made of.
#[derive(Clone, Copy, Debug, PartialEq, Eq, Structural)]
pub struct ImageViewCreateInfo {
    pub image: u64,
    pub view_type: ImageViewType,
    pub format: Format,
    pub aspect_mask: u32,
    pub base_mip_level: u32,
    pub level_count: u32,
    pub base_array_layer: u32,
    pub layer_count: u32,
}

/// A view onto an image.
#[derive(Clone, Copy, Debug, PartialEq, Eq, Structural)]
pub struct ImageView {
    handle: u64,
    image: u64,
}

impl ImageView {
    /// The view's handle.
    pub closed spec fn id(&self) -> u64 {
        self.handle
    }

    /// The image seen through the view.
    pub closed spec fn source(&self) -> u64 {
        self.image
    }

    /// The view with handle `handle`, made from `create_info`.
    pub fn new(handle: u64, create_info: &ImageViewCreateInfo) -> (view: Self)
        ensures
            view.id() == handle,
            view.source() == create_info.image,
    {
        Self { handle, image: create_info.image }
    }

    pub fn handle(&self) -> (handle: u64)
        ensures
            handle == self.id(),
    {
        self.handle
    }

    pub fn image(&self) -> (image: u64)
        ensures
            image == self.source(),
    {
        self.image
    }
}

} // verus!
