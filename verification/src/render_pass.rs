//! The render target pass: how the single color attachment is loaded,
//! stored and transitioned across one subpass. The description is a
//! pure function of the chosen surface format, so it is rebuilt
//! together with the swapchain.

use vstd::prelude::*;
use crate::swapchain::PixelFormat;

verus! {

/// What happens to an attachment's contents when the pass begins.
#[derive(Clone, Copy, PartialEq, Eq, Structural, Debug)]
pub enum LoadOp {
    Load,
    Clear,
    DontCare,
}

/// What happens to an attachment's contents when the pass ends.
#[derive(Clone, Copy, PartialEq, Eq, Structural, Debug)]
pub enum StoreOp {
    Store,
    DontCare,
}

/// The image layouts the attachment transitions between.
#[derive(Clone, Copy, PartialEq, Eq, Structural, Debug)]
pub enum ImageLayout {
    Undefined,
    ColorAttachmentOptimal,
    Present,
}

/// The description of the single color attachment.
#[derive(Clone, Copy, PartialEq, Eq, Structural, Debug)]
pub struct AttachmentDesc {
    /// Pixel format, matching the swapchain's.
    pub format: PixelFormat,
    /// Sample count: no multisampling.
    pub samples: u8,
    /// Color load behaviour when the pass begins.
    pub load_op: LoadOp,
    /// Color store behaviour when the pass ends.
    pub store_op: StoreOp,
    /// Stencil load behaviour: there is no stencil data.
    pub stencil_load_op: LoadOp,
    /// Stencil store behaviour: there is no stencil data.
    pub stencil_store_op: StoreOp,
    /// Layout the image is in when the pass begins.
    pub initial_layout: ImageLayout,
    /// Layout the image is left in for the presentation engine.
    pub final_layout: ImageLayout,
}

/// The render target pass: one color attachment, one subpass.
#[derive(Clone, Copy, PartialEq, Eq, Structural, Debug)]
pub struct RenderPassState {
    /// The single color attachment.
    pub attachment: AttachmentDesc,
    /// Layout the attachment is used in during the subpass.
    pub subpass_color_layout: ImageLayout,
}

/// The pass description as a function of the chosen format: cleared on
/// load, stored on end, transitioned from undefined straight to the
/// presentable layout, rendered in the color-attachment-optimal layout.
pub open spec fn spec_render_pass(format: PixelFormat) -> RenderPassState {
    RenderPassState {
        attachment: AttachmentDesc {
            format,
            samples: 1u8,
            load_op: LoadOp::Clear,
            store_op: StoreOp::Store,
            stencil_load_op: LoadOp::DontCare,
            stencil_store_op: StoreOp::DontCare,
            initial_layout: ImageLayout::Undefined,
            final_layout: ImageLayout::Present,
        },
        subpass_color_layout: ImageLayout::ColorAttachmentOptimal,
    }
}

impl RenderPassState {
    /// Builds the pass description for the given surface format.
    pub fn new(format: PixelFormat) -> (r: RenderPassState)
        ensures
            r == spec_render_pass(format),
    {
        RenderPassState {
            attachment: AttachmentDesc {
                format,
                samples: 1,
                load_op: LoadOp::Clear,
                store_op: StoreOp::Store,
                stencil_load_op: LoadOp::DontCare,
                stencil_store_op: StoreOp::DontCare,
                initial_layout: ImageLayout::Undefined,
                final_layout: ImageLayout::Present,
            },
            subpass_color_layout: ImageLayout::ColorAttachmentOptimal,
        }
    }
}

} // verus!
