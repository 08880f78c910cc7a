//! The render pass: one color attachment and one subpass that draws to it.

use vstd::prelude::*;

verus! {

/// Code of the load operation that clears the attachment.
pub const LOAD_OP_CLEAR: i32 = 1;

/// Code of the load operation that leaves the contents undefined.
pub const LOAD_OP_DONT_CARE: i32 = 2;

/// Code of the store operation that keeps what was drawn.
pub const STORE_OP_STORE: i32 = 0;

/// Code of the store operation that may discard what was drawn.
pub const STORE_OP_DONT_CARE: i32 = 1;

/// Code of the layout of an image whose contents do not matter.
pub const LAYOUT_UNDEFINED: i32 = 0;

/// Code of the layout for drawing color into an image.
pub const LAYOUT_COLOR_ATTACHMENT: i32 = 2;

/// Code of the layout in which an image is handed to presentation.
pub const LAYOUT_PRESENT: i32 = 1_000_001_002;

/// Code of the bind point for graphics pipelines.
pub const BIND_POINT_GRAPHICS: i32 = 0;

/// Sample-count bit for one sample per pixel.
pub const ATTACHMENT_SAMPLES_1: u32 = 0x1;

/// What the render-pass creation call is given.
#[derive(Clone, Copy, Debug, PartialEq, Eq, Structural)]
pub struct RenderPassPlan {
    /// How many attachments the pass has.
    pub attachment_count: u32,
    /// The color attachment's format.
    pub format: i32,
    pub samples: u32,
    pub load_op: i32,
    pub store_op: i32,
    pub stencil_load_op: i32,
    pub stencil_store_op: i32,
    pub initial_layout: i32,
    pub final_layout: i32,
    /// How many subpasses the pass has.
    pub subpass_count: u32,
    pub bind_point: i32,
    /// Which attachment the subpass draws color to.
    pub color_attachment: u32,
    /// The layout of that attachment during the subpass.
    pub color_layout: i32,
}

impl RenderPassPlan {
    /// The render pass for a swapchain format: one single-sample color
    /// attachment in that format, cleared when loaded and stored when done,
    /// with stencil contents left alone, taken in whatever layout it is in
    /// and left ready for presentation; and one graphics subpass that draws
    /// to it in the layout for color output.
    pub open spec fn of(format: i32) -> RenderPassPlan {
        RenderPassPlan {
            attachment_count: 1,
            format,
            samples: ATTACHMENT_SAMPLES_1,
            load_op: LOAD_OP_CLEAR,
            store_op: STORE_OP_STORE,
            stencil_load_op: LOAD_OP_DONT_CARE,
            stencil_store_op: STORE_OP_DONT_CARE,
            initial_layout: LAYOUT_UNDEFINED,
            final_layout: LAYOUT_PRESENT,
            subpass_count: 1,
            bind_point: BIND_POINT_GRAPHICS,
            color_attachment: 0,
            color_layout: LAYOUT_COLOR_ATTACHMENT,
        }
    }

    /// Plans the render pass for the swapchain's format.
    pub fn new(format: i32) -> (plan: RenderPassPlan)
        ensures
            plan == Self::of(format),
    {
        RenderPassPlan {
            attachment_count: 1,
            format,
            samples: ATTACHMENT_SAMPLES_1,
            load_op: LOAD_OP_CLEAR,
            store_op: STORE_OP_STORE,
            stencil_load_op: LOAD_OP_DONT_CARE,
            stencil_store_op: STORE_OP_DONT_CARE,
            initial_layout: LAYOUT_UNDEFINED,
            final_layout: LAYOUT_PRESENT,
            subpass_count: 1,
            bind_point: BIND_POINT_GRAPHICS,
            color_attachment: 0,
            color_layout: LAYOUT_COLOR_ATTACHMENT,
        }
    }
}

} // verus!
