//! What a surface reports about itself, as plain numbers. Formats, color
//! spaces and present modes are held by the codes the driver uses for them.

use vstd::prelude::*;

verus! {

/// Code of the format with four 8-bit channels in the order red, green,
/// blue, alpha, sRGB-encoded.
pub const FORMAT_R8G8B8A8_SRGB: i32 = 43;

/// Code of the sRGB non-linear color space.
pub const COLOR_SPACE_SRGB_NONLINEAR: i32 = 0;

/// Code of the present mode that shows images at once, without waiting.
pub const PRESENT_MODE_IMMEDIATE: i32 = 0;

/// Code of the present mode that keeps one queued image and replaces it when
/// a newer one arrives.
pub const PRESENT_MODE_MAILBOX: i32 = 1;

/// Code of the present mode that queues images and blocks when the queue is
/// full. Every surface supports it.
pub const PRESENT_MODE_FIFO: i32 = 2;

/// The width that a surface reports as its current one when it takes any
/// extent.
pub const ANY_EXTENT: u32 = 0xffff_ffff;

/// A size in physical pixels.
#[derive(Clone, Copy, Debug, PartialEq, Eq, Structural)]
pub struct Extent {
    pub width: u32,
    pub height: u32,
}

/// A pixel format together with the color space it is shown in.
#[derive(Clone, Copy, Debug, PartialEq, Eq, Structural)]
pub struct SurfaceFormat {
    pub format: i32,
    pub color_space: i32,
}

/// The limits a surface puts on a swapchain.
#[derive(Clone, Copy, Debug, PartialEq, Eq, Structural)]
pub struct SurfaceCapabilities {
    /// The fewest images a swapchain may have.
    pub min_image_count: u32,
    /// The most images a swapchain may have; zero when there is no limit.
    pub max_image_count: u32,
    /// The surface's current size, or `ANY_EXTENT` as its width when the
    /// swapchain decides the size.
    pub current_extent: Extent,
    pub min_image_extent: Extent,
    pub max_image_extent: Extent,
    /// The transform bit of the surface's current orientation.
    pub current_transform: u32,
}

} // verus!
