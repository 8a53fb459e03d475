//! Framebuffers: the image views a render pass draws into.

use vstd::prelude::*;
use crate::surface::Extent2D;

verus! {

/// What a framebuffer is to be made of.
#[derive(Clone, Debug)]
pub struct FramebufferCreateInfo {
    pub render_pass: u64,
    pub attachments: Vec<u64>,
    pub width: u32,
    pub height: u32,
    pub layers: u32,
}

/// A framebuffer.
#[derive(Clone, Copy, Debug, PartialEq, Eq, Structural)]
pub struct FrameBuffer {
    handle: u64,
    extent: Extent2D,
}

impl FrameBuffer {
    /// The framebuffer's handle.
    pub closed spec fn id(&self) -> u64 {
        self.handle
    }

    /// The framebuffer's size.
    pub closed spec fn size(&self) -> Extent2D {
        self.extent
    }

    /// What the framebuffer for one presentable image is made of: the view
    /// onto the image, then the view onto the depth image, one layer, as
    /// large as the presentable images.
    pub fn create_info(render_pass: u64, color_view: u64, depth_view: u64, extent: Extent2D) -> (info:
        FramebufferCreateInfo)
        ensures
            info.render_pass == render_pass,
            info.attachments@ == seq![color_view, depth_view],
            info.width == extent.width,
            info.height == extent.height,
            info.layers == 1,
    {
        let mut attachments: Vec<u64> = Vec::new();
        attachments.push(color_view);
        attachments.push(depth_view);
        assert(attachments@ =~= seq![color_view, depth_view]);
        FramebufferCreateInfo {
            render_pass,
            attachments,
            width: extent.width,
            height: extent.height,
            layers: 1,
        }
    }

    /// The framebuffer with handle `handle`, made from `info`.
    pub fn new(handle: u64, info: &FramebufferCreateInfo) -> (frame_buffer: Self)
        ensures
            frame_buffer.id() == handle,
            frame_buffer.size() == (Extent2D { width: info.width, height: info.height }),
    {
        Self { handle, extent: Extent2D { width: info.width, height: info.height } }
    }

    pub fn handle(&self) -> (handle: u64)
        ensures
            handle == self.id(),
    {
        self.handle
    }

    pub fn extent(&self) -> (extent: Extent2D)
        ensures
            extent == self.size(),
    {
        self.extent
    }
}

} // verus!
