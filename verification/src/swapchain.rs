//! How a swapchain is sized and formatted for a surface. Each policy stands
//! on its own and depends only on what the surface reports.

use crate::device::distinct_families;
use crate::device::is_first_graphics;
use crate::device::is_first_present;
use crate::device::lemma_suitable_by_resolved_families;
use crate::device::PhysicalDeviceCandidate;
use crate::device::QueueFamilyIndices;
use crate::error::RendererError;
use crate::resource::Resource;
use crate::surface::Extent;
use crate::surface::SurfaceCapabilities;
use crate::surface::SurfaceFormat;
use crate::surface::ANY_EXTENT;
use crate::surface::COLOR_SPACE_SRGB_NONLINEAR;
use crate::surface::FORMAT_R8G8B8A8_SRGB;
use crate::surface::PRESENT_MODE_FIFO;
use crate::surface::PRESENT_MODE_MAILBOX;
use vstd::prelude::*;

verus! {

/// Who may use the swapchain's images.
#[derive(Clone, Copy, Debug, PartialEq, Eq, Structural)]
pub enum SharingMode {
    /// One queue family at a time.
    Exclusive,
    /// Several queue families at once.
    Concurrent,
}

/// The format a swapchain should have if the surface offers it: 8-bit RGBA,
/// sRGB-encoded, in the sRGB non-linear color space.
pub open spec fn preferred_format() -> SurfaceFormat {
    SurfaceFormat { format: FORMAT_R8G8B8A8_SRGB, color_space: COLOR_SPACE_SRGB_NONLINEAR }
}

/// The format picked from a list: the preferred one when the list holds it,
/// else the first entry; nothing from an empty list.
pub open spec fn chosen_format(formats: Seq<SurfaceFormat>) -> Option<SurfaceFormat> {
    if formats.len() == 0 {
        None
    } else if formats.contains(preferred_format()) {
        Some(preferred_format())
    } else {
        Some(formats[0])
    }
}

/// Picks the swapchain's format from those the surface supports.
pub fn choose_surface_format(formats: &Vec<SurfaceFormat>) -> (chosen: Option<SurfaceFormat>)
    ensures
        chosen == chosen_format(formats@),
        formats@.contains(preferred_format()) ==> chosen == Some(preferred_format()),
        formats.len() > 0 && !formats@.contains(preferred_format()) ==> chosen == Some(formats[0]),
        chosen is None <==> formats.len() == 0,
{
    if formats.len() == 0 {
        return None;
    }
    let mut i: usize = 0;
    while i < formats.len()
        invariant
            i <= formats.len(),
            forall|k: int| 0 <= k < i ==> formats[k] != preferred_format(),
        decreases formats.len() - i,
    {
        let entry = formats[i];
        if entry.format == FORMAT_R8G8B8A8_SRGB && entry.color_space == COLOR_SPACE_SRGB_NONLINEAR {
            return Some(entry);
        }
        i += 1;
    }
    Some(formats[0])
}

/// The present mode picked from a list: mailbox when the list holds it, else
/// FIFO, which every surface supports, whatever else the list holds.
pub open spec fn chosen_present_mode(modes: Seq<i32>) -> i32 {
    if modes.contains(PRESENT_MODE_MAILBOX) {
        PRESENT_MODE_MAILBOX
    } else {
        PRESENT_MODE_FIFO
    }
}

/// Picks the swapchain's present mode from those the surface supports.
pub fn choose_present_mode(modes: &Vec<i32>) -> (chosen: i32)
    ensures
        chosen == chosen_present_mode(modes@),
        modes@.contains(PRESENT_MODE_MAILBOX) ==> chosen == PRESENT_MODE_MAILBOX,
        !modes@.contains(PRESENT_MODE_MAILBOX) ==> chosen == PRESENT_MODE_FIFO,
{
    let mut i: usize = 0;
    while i < modes.len()
        invariant
            i <= modes.len(),
            forall|k: int| 0 <= k < i ==> modes[k] != PRESENT_MODE_MAILBOX,
        decreases modes.len() - i,
    {
        if modes[i] == PRESENT_MODE_MAILBOX {
            return PRESENT_MODE_MAILBOX;
        }
        i += 1;
    }
    PRESENT_MODE_FIFO
}

/// `value` brought into the range from `low` to `high`: raised to `low`
/// when below it, else lowered to `high` when above it.
pub open spec fn clamped(value: u32, low: u32, high: u32) -> u32 {
    if value < low {
        low
    } else if value > high {
        high
    } else {
        value
    }
}

fn clamp_to(value: u32, low: u32, high: u32) -> (result: u32)
    ensures
        result == clamped(value, low, high),
{
    if value < low {
        low
    } else if value > high {
        high
    } else {
        value
    }
}

/// The swapchain's extent: the surface's current extent when it reports
/// one; when it reports that any extent is accepted, the window's size in
/// physical pixels, with the width brought into the surface's width range
/// and the height into its height range.
pub open spec fn chosen_extent(capabilities: SurfaceCapabilities, window: Extent) -> Extent {
    if capabilities.current_extent.width != ANY_EXTENT {
        capabilities.current_extent
    } else {
        Extent {
            width: clamped(
                window.width,
                capabilities.min_image_extent.width,
                capabilities.max_image_extent.width,
            ),
            height: clamped(
                window.height,
                capabilities.min_image_extent.height,
                capabilities.max_image_extent.height,
            ),
        }
    }
}

/// Derives the swapchain's extent from what the surface reports and the
/// window's size in physical pixels. Where the surface's ranges are not
/// empty, a derived width and height lie within them.
pub fn choose_extent(capabilities: &SurfaceCapabilities, window: Extent) -> (chosen: Extent)
    ensures
        chosen == chosen_extent(*capabilities, window),
        capabilities.current_extent.width != ANY_EXTENT ==> chosen == capabilities.current_extent,
        capabilities.current_extent.width == ANY_EXTENT && capabilities.min_image_extent.width
            <= capabilities.max_image_extent.width ==> capabilities.min_image_extent.width
            <= chosen.width <= capabilities.max_image_extent.width,
        capabilities.current_extent.width == ANY_EXTENT && capabilities.min_image_extent.height
            <= capabilities.max_image_extent.height ==> capabilities.min_image_extent.height
            <= chosen.height <= capabilities.max_image_extent.height,
{
    if capabilities.current_extent.width != ANY_EXTENT {
        capabilities.current_extent
    } else {
        Extent {
            width: clamp_to(
                window.width,
                capabilities.min_image_extent.width,
                capabilities.max_image_extent.width,
            ),
            height: clamp_to(
                window.height,
                capabilities.min_image_extent.height,
                capabilities.max_image_extent.height,
            ),
        }
    }
}

/// The number of images to ask for: one more than the surface's minimum,
/// but no more than its maximum where it has one (a maximum of zero means
/// that it has none).
pub open spec fn wanted_image_count(minimum: u32, maximum: u32) -> int {
    if maximum != 0 && minimum + 1 > maximum {
        maximum as int
    } else {
        minimum + 1
    }
}

/// Derives the number of images to ask for. There is none when the number
/// does not fit in 32 bits, which is when the surface's minimum is the
/// largest 32-bit number and it has no maximum.
pub fn choose_image_count(capabilities: &SurfaceCapabilities) -> (count: Option<u32>)
    ensures
        count is Some <==> wanted_image_count(
            capabilities.min_image_count,
            capabilities.max_image_count,
        ) <= u32::MAX,
        count is Some ==> count->0 == wanted_image_count(
            capabilities.min_image_count,
            capabilities.max_image_count,
        ),
        count is None <==> capabilities.min_image_count == u32::MAX
            && capabilities.max_image_count == 0,
{
    let minimum = capabilities.min_image_count;
    let maximum = capabilities.max_image_count;
    if maximum != 0 && minimum >= maximum {
        Some(maximum)
    } else if minimum == u32::MAX {
        None
    } else {
        Some(minimum + 1)
    }
}

/// Images are shared concurrently when graphics and presentation use
/// different queue families, and used exclusively when they use the same.
pub open spec fn chosen_sharing_mode(graphics: u32, present: u32) -> SharingMode {
    if graphics != present {
        SharingMode::Concurrent
    } else {
        SharingMode::Exclusive
    }
}

/// Picks the sharing mode for the two queue families in use.
pub fn choose_sharing_mode(graphics: u32, present: u32) -> (mode: SharingMode)
    ensures
        mode == chosen_sharing_mode(graphics, present),
{
    if graphics != present {
        SharingMode::Concurrent
    } else {
        SharingMode::Exclusive
    }
}

/// The queue families named in the swapchain request: both when the images
/// are shared, none when they are not.
pub open spec fn sharing_families(graphics: u32, present: u32) -> Seq<u32> {
    if graphics != present {
        seq![graphics, present]
    } else {
        Seq::<u32>::empty()
    }
}

/// Usage bit of images that are drawn to as color attachments.
pub const IMAGE_USAGE_COLOR_ATTACHMENT: u32 = 0x10;

/// Composite-alpha bit that ignores the alpha channel when the window is
/// shown.
pub const COMPOSITE_ALPHA_OPAQUE: u32 = 0x1;

/// Everything the swapchain-creation call is given.
pub struct SwapchainPlan {
    pub format: SurfaceFormat,
    pub present_mode: i32,
    pub extent: Extent,
    pub image_count: u32,
    pub sharing_mode: SharingMode,
    /// The queue families that share the images; empty when the images are
    /// used exclusively.
    pub queue_families: Vec<u32>,
    /// How many layers each image has.
    pub image_array_layers: u32,
    pub image_usage: u32,
    /// The transform applied to images before they are shown.
    pub pre_transform: u32,
    pub composite_alpha: u32,
    /// Whether pixels hidden by other windows may be left undrawn.
    pub clipped: bool,
}

/// A swapchain can be planned when the surface offers a format, both queue
/// families are resolved, and the image count fits in 32 bits.
pub open spec fn plannable(
    formats: Seq<SurfaceFormat>,
    capabilities: SurfaceCapabilities,
    indices: QueueFamilyIndices,
) -> bool {
    &&& formats.len() > 0
    &&& indices.complete()
    &&& wanted_image_count(capabilities.min_image_count, capabilities.max_image_count)
        <= u32::MAX
}

/// Plans the swapchain for the chosen adapter, the queue families resolved
/// on it, and the window's size in physical pixels. Format, present mode,
/// extent, image count and sharing each follow their own policy; beyond
/// those the images have one layer, are drawn to as color attachments, keep
/// the surface's current transform, and are shown opaque and clipped. Where
/// no plan can be made the swapchain counts as a resource that could not be
/// created.
pub fn plan_swapchain(
    candidate: &PhysicalDeviceCandidate,
    indices: &QueueFamilyIndices,
    window: Extent,
) -> (plan: Result<SwapchainPlan, RendererError>)
    ensures
        plan is Ok <==> plannable(candidate.formats@, candidate.capabilities, *indices),
        plan is Err ==> plan->Err_0 == RendererError::ResourceCreationFailed(Resource::Swapchain),
        plan is Ok ==> Some(plan->Ok_0.format) == chosen_format(candidate.formats@),
        plan is Ok ==> plan->Ok_0.present_mode == chosen_present_mode(candidate.present_modes@),
        plan is Ok ==> plan->Ok_0.extent == chosen_extent(candidate.capabilities, window),
        plan is Ok ==> plan->Ok_0.image_count == wanted_image_count(
            candidate.capabilities.min_image_count,
            candidate.capabilities.max_image_count,
        ),
        plan is Ok ==> plan->Ok_0.sharing_mode == chosen_sharing_mode(
            indices.graphics->0,
            indices.present->0,
        ),
        plan is Ok ==> plan->Ok_0.queue_families@ == sharing_families(
            indices.graphics->0,
            indices.present->0,
        ),
        plan is Ok ==> plan->Ok_0.image_array_layers == 1,
        plan is Ok ==> plan->Ok_0.image_usage == IMAGE_USAGE_COLOR_ATTACHMENT,
        plan is Ok ==> plan->Ok_0.pre_transform == candidate.capabilities.current_transform,
        plan is Ok ==> plan->Ok_0.composite_alpha == COMPOSITE_ALPHA_OPAQUE,
        plan is Ok ==> plan->Ok_0.clipped,
{
    let unplannable = RendererError::ResourceCreationFailed(Resource::Swapchain);
    let format = match choose_surface_format(&candidate.formats) {
        Some(format) => format,
        None => {
            return Err(unplannable);
        },
    };
    let (graphics, present) = match (indices.graphics, indices.present) {
        (Some(graphics), Some(present)) => (graphics, present),
        _ => {
            return Err(unplannable);
        },
    };
    let image_count = match choose_image_count(&candidate.capabilities) {
        Some(count) => count,
        None => {
            return Err(unplannable);
        },
    };
    let mut queue_families: Vec<u32> = Vec::new();
    if graphics != present {
        queue_families.push(graphics);
        queue_families.push(present);
    }
    Ok(
        SwapchainPlan {
            format,
            present_mode: choose_present_mode(&candidate.present_modes),
            extent: choose_extent(&candidate.capabilities, window),
            image_count,
            sharing_mode: choose_sharing_mode(graphics, present),
            queue_families,
            image_array_layers: 1,
            image_usage: IMAGE_USAGE_COLOR_ATTACHMENT,
            pre_transform: candidate.capabilities.current_transform,
            composite_alpha: COMPOSITE_ALPHA_OPAQUE,
            clipped: true,
        },
    )
}

/// The image count asked for never exceeds the surface's maximum where it
/// has one, and is never below the surface's minimum where the minimum does
/// not itself exceed that maximum.
pub proof fn lemma_image_count_within_limits(minimum: u32, maximum: u32)
    ensures
        maximum != 0 ==> wanted_image_count(minimum, maximum) <= maximum,
        maximum == 0 || minimum <= maximum ==> wanted_image_count(minimum, maximum) >= minimum,
        maximum == 0 || minimum < maximum ==> wanted_image_count(minimum, maximum) == minimum + 1,
{
}

/// The swapchain shares its images exactly when the device was asked for
/// queues in two families, and then among those two families.
pub proof fn lemma_sharing_follows_queue_families(graphics: u32, present: u32)
    ensures
        chosen_sharing_mode(graphics, present) == SharingMode::Concurrent <==> distinct_families(
            graphics,
            present,
        ).len() == 2,
        chosen_sharing_mode(graphics, present) == SharingMode::Concurrent ==> sharing_families(
            graphics,
            present,
        ) == distinct_families(graphics, present),
        chosen_sharing_mode(graphics, present) == SharingMode::Exclusive ==> sharing_families(
            graphics,
            present,
        ).len() == 0,
{
}

/// For an adapter that was found suitable, with the queue families resolved
/// on it, a swapchain can be planned unless the image count does not fit in
/// 32 bits.
pub proof fn lemma_suitable_is_plannable(
    candidate: PhysicalDeviceCandidate,
    required: Seq<Seq<char>>,
    indices: QueueFamilyIndices,
)
    requires
        candidate.suitable(required),
        is_first_graphics(candidate.queue_families@, indices.graphics),
        is_first_present(candidate.queue_families@, indices.present),
    ensures
        indices.complete(),
        plannable(candidate.formats@, candidate.capabilities, indices) <==> wanted_image_count(
            candidate.capabilities.min_image_count,
            candidate.capabilities.max_image_count,
        ) <= u32::MAX,
{
    lemma_suitable_by_resolved_families(candidate, required, indices);
}

/// Code of the view type for two-dimensional images.
pub const IMAGE_VIEW_TYPE_2D: i32 = 1;

/// Code of the channel mapping that leaves a channel where it is.
pub const COMPONENT_SWIZZLE_IDENTITY: i32 = 0;

/// Aspect bit of an image's color data.
pub const IMAGE_ASPECT_COLOR: u32 = 0x1;

/// What the create call for one image view is given.
#[derive(Clone, Copy, Debug, PartialEq, Eq, Structural)]
pub struct ImageViewPlan {
    /// Which swapchain image the view looks at.
    pub image_index: u32,
    pub format: i32,
    pub view_type: i32,
    /// The mapping of the red channel.
    pub swizzle_r: i32,
    /// The mapping of the green channel.
    pub swizzle_g: i32,
    /// The mapping of the blue channel.
    pub swizzle_b: i32,
    /// The mapping of the alpha channel.
    pub swizzle_a: i32,
    pub aspect_mask: u32,
    pub base_mip_level: u32,
    pub level_count: u32,
    pub base_array_layer: u32,
    pub layer_count: u32,
}

/// The view of swapchain image `image_index`: a two-dimensional color view
/// in the swapchain's format, with every channel left where it is, one mip
/// level and one array layer.
pub open spec fn view_of(format: i32, image_index: u32) -> ImageViewPlan {
    ImageViewPlan {
        image_index,
        format,
        view_type: IMAGE_VIEW_TYPE_2D,
        swizzle_r: COMPONENT_SWIZZLE_IDENTITY,
        swizzle_g: COMPONENT_SWIZZLE_IDENTITY,
        swizzle_b: COMPONENT_SWIZZLE_IDENTITY,
        swizzle_a: COMPONENT_SWIZZLE_IDENTITY,
        aspect_mask: IMAGE_ASPECT_COLOR,
        base_mip_level: 0,
        level_count: 1,
        base_array_layer: 0,
        layer_count: 1,
    }
}

/// Plans the view of one swapchain image.
pub fn plan_image_view(format: i32, image_index: u32) -> (plan: ImageViewPlan)
    ensures
        plan == view_of(format, image_index),
{
    ImageViewPlan {
        image_index,
        format,
        view_type: IMAGE_VIEW_TYPE_2D,
        swizzle_r: COMPONENT_SWIZZLE_IDENTITY,
        swizzle_g: COMPONENT_SWIZZLE_IDENTITY,
        swizzle_b: COMPONENT_SWIZZLE_IDENTITY,
        swizzle_a: COMPONENT_SWIZZLE_IDENTITY,
        aspect_mask: IMAGE_ASPECT_COLOR,
        base_mip_level: 0,
        level_count: 1,
        base_array_layer: 0,
        layer_count: 1,
    }
}

} // verus!
