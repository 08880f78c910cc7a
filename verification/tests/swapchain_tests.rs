use engine::device::PhysicalDeviceCandidate;
use engine::device::QueueFamily;
use engine::device::QueueFamilyIndices;
use engine::error::RendererError;
use engine::resource::Resource;
use engine::surface::Extent;
use engine::surface::SurfaceCapabilities;
use engine::surface::SurfaceFormat;
use engine::surface::ANY_EXTENT;
use engine::surface::COLOR_SPACE_SRGB_NONLINEAR;
use engine::surface::FORMAT_R8G8B8A8_SRGB;
use engine::surface::PRESENT_MODE_FIFO;
use engine::surface::PRESENT_MODE_IMMEDIATE;
use engine::surface::PRESENT_MODE_MAILBOX;
use engine::swapchain::choose_extent;
use engine::swapchain::choose_image_count;
use engine::swapchain::choose_present_mode;
use engine::swapchain::choose_sharing_mode;
use engine::swapchain::choose_surface_format;
use engine::swapchain::plan_image_view;
use engine::swapchain::plan_swapchain;
use engine::swapchain::ImageViewPlan;
use engine::swapchain::SharingMode;
use engine::swapchain::COMPONENT_SWIZZLE_IDENTITY;
use engine::swapchain::COMPOSITE_ALPHA_OPAQUE;
use engine::swapchain::IMAGE_ASPECT_COLOR;
use engine::swapchain::IMAGE_USAGE_COLOR_ATTACHMENT;
use engine::swapchain::IMAGE_VIEW_TYPE_2D;

const BGRA_SRGB: i32 = 50;
const RGBA_UNORM: i32 = 37;
const FIFO_RELAXED: i32 = 3;

fn preferred() -> SurfaceFormat {
    SurfaceFormat { format: FORMAT_R8G8B8A8_SRGB, color_space: COLOR_SPACE_SRGB_NONLINEAR }
}

fn format(format: i32, color_space: i32) -> SurfaceFormat {
    SurfaceFormat { format, color_space }
}

fn capabilities(minimum: u32, maximum: u32, current_width: u32) -> SurfaceCapabilities {
    SurfaceCapabilities {
        min_image_count: minimum,
        max_image_count: maximum,
        current_extent: Extent { width: current_width, height: 600 },
        min_image_extent: Extent { width: 100, height: 50 },
        max_image_extent: Extent { width: 2000, height: 1000 },
        current_transform: 4,
    }
}

fn candidate(
    formats: Vec<SurfaceFormat>,
    present_modes: Vec<i32>,
    capabilities: SurfaceCapabilities,
) -> PhysicalDeviceCandidate {
    PhysicalDeviceCandidate {
        name: "adapter".to_string(),
        extensions: vec!["VK_KHR_swapchain".to_string()],
        queue_families: vec![QueueFamily { flags: 1, supports_present: true }],
        formats,
        present_modes,
        capabilities,
    }
}

#[test]
fn preferred_format_is_chosen_wherever_it_stands() {
    let last = vec![format(BGRA_SRGB, 0), format(RGBA_UNORM, 0), preferred()];
    assert_eq!(choose_surface_format(&last), Some(preferred()));
    let first = vec![preferred(), format(BGRA_SRGB, 0)];
    assert_eq!(choose_surface_format(&first), Some(preferred()));
    assert_eq!(choose_surface_format(&vec![preferred()]), Some(preferred()));
}

#[test]
fn first_format_is_the_fallback() {
    let formats = vec![format(BGRA_SRGB, 0), format(RGBA_UNORM, 0)];
    assert_eq!(choose_surface_format(&formats), Some(format(BGRA_SRGB, 0)));
}

#[test]
fn preferred_format_needs_both_the_format_and_the_color_space() {
    let wrong_space = vec![format(BGRA_SRGB, 0), format(FORMAT_R8G8B8A8_SRGB, 1_000_104_001)];
    assert_eq!(choose_surface_format(&wrong_space), Some(format(BGRA_SRGB, 0)));
    let wrong_format = vec![format(RGBA_UNORM, COLOR_SPACE_SRGB_NONLINEAR)];
    assert_eq!(
        choose_surface_format(&wrong_format),
        Some(format(RGBA_UNORM, COLOR_SPACE_SRGB_NONLINEAR))
    );
}

#[test]
fn no_format_is_chosen_from_an_empty_list() {
    assert_eq!(choose_surface_format(&Vec::new()), None);
}

#[test]
fn mailbox_is_chosen_whenever_it_is_listed() {
    assert_eq!(
        choose_present_mode(&vec![PRESENT_MODE_FIFO, PRESENT_MODE_MAILBOX]),
        PRESENT_MODE_MAILBOX
    );
    assert_eq!(
        choose_present_mode(&vec![PRESENT_MODE_MAILBOX, PRESENT_MODE_IMMEDIATE]),
        PRESENT_MODE_MAILBOX
    );
    assert_eq!(choose_present_mode(&vec![PRESENT_MODE_MAILBOX]), PRESENT_MODE_MAILBOX);
}

#[test]
fn fifo_is_the_fallback_even_when_it_is_not_listed() {
    assert_eq!(
        choose_present_mode(&vec![PRESENT_MODE_IMMEDIATE, PRESENT_MODE_FIFO]),
        PRESENT_MODE_FIFO
    );
    assert_eq!(choose_present_mode(&vec![PRESENT_MODE_IMMEDIATE, FIFO_RELAXED]), PRESENT_MODE_FIFO);
    assert_eq!(choose_present_mode(&Vec::new()), PRESENT_MODE_FIFO);
}

#[test]
fn reported_extent_is_used_verbatim() {
    let caps = capabilities(2, 0, 800);
    assert_eq!(
        choose_extent(&caps, Extent { width: 5, height: 5 }),
        Extent { width: 800, height: 600 }
    );
    let outside = SurfaceCapabilities {
        current_extent: Extent { width: 3000, height: 7 },
        ..capabilities(2, 0, 0)
    };
    assert_eq!(
        choose_extent(&outside, Extent { width: 500, height: 500 }),
        Extent { width: 3000, height: 7 }
    );
}

#[test]
fn window_size_within_the_ranges_is_kept() {
    let caps = capabilities(2, 0, ANY_EXTENT);
    assert_eq!(
        choose_extent(&caps, Extent { width: 800, height: 600 }),
        Extent { width: 800, height: 600 }
    );
    assert_eq!(
        choose_extent(&caps, Extent { width: 100, height: 1000 }),
        Extent { width: 100, height: 1000 }
    );
}

#[test]
fn each_axis_is_clamped_against_its_own_range() {
    let caps = capabilities(2, 0, ANY_EXTENT);
    assert_eq!(
        choose_extent(&caps, Extent { width: 60, height: 60 }),
        Extent { width: 100, height: 60 }
    );
    assert_eq!(
        choose_extent(&caps, Extent { width: 1500, height: 1500 }),
        Extent { width: 1500, height: 1000 }
    );
    assert_eq!(
        choose_extent(&caps, Extent { width: 0, height: 0 }),
        Extent { width: 100, height: 50 }
    );
    assert_eq!(
        choose_extent(&caps, Extent { width: u32::MAX, height: u32::MAX }),
        Extent { width: 2000, height: 1000 }
    );
}

#[test]
fn derived_extent_lies_within_the_ranges() {
    let caps = capabilities(2, 0, ANY_EXTENT);
    for width in [0u32, 1, 99, 100, 101, 1999, 2000, 2001, 70000] {
        for height in [0u32, 49, 50, 51, 999, 1000, 1001, 70000] {
            let extent = choose_extent(&caps, Extent { width, height });
            assert!(100 <= extent.width && extent.width <= 2000);
            assert!(50 <= extent.height && extent.height <= 1000);
        }
    }
}

#[test]
fn image_count_is_one_more_than_the_minimum_without_a_maximum() {
    assert_eq!(choose_image_count(&capabilities(2, 0, 800)), Some(3));
}

#[test]
fn image_count_may_reach_the_maximum() {
    assert_eq!(choose_image_count(&capabilities(2, 3, 800)), Some(3));
}

#[test]
fn image_count_is_capped_at_the_maximum() {
    assert_eq!(choose_image_count(&capabilities(1, 1, 800)), Some(1));
    assert_eq!(choose_image_count(&capabilities(4, 2, 800)), Some(2));
}

#[test]
fn image_count_below_the_maximum_is_not_capped() {
    assert_eq!(choose_image_count(&capabilities(2, 8, 800)), Some(3));
    assert_eq!(choose_image_count(&capabilities(0, 0, 800)), Some(1));
}

#[test]
fn image_count_at_the_edge_of_32_bits() {
    assert_eq!(choose_image_count(&capabilities(u32::MAX - 1, 0, 800)), Some(u32::MAX));
    assert_eq!(choose_image_count(&capabilities(u32::MAX, u32::MAX, 800)), Some(u32::MAX));
    assert_eq!(choose_image_count(&capabilities(u32::MAX, 5, 800)), Some(5));
    assert_eq!(choose_image_count(&capabilities(u32::MAX, 0, 800)), None);
}

#[test]
fn sharing_is_concurrent_exactly_for_distinct_families() {
    assert_eq!(choose_sharing_mode(0, 1), SharingMode::Concurrent);
    assert_eq!(choose_sharing_mode(1, 0), SharingMode::Concurrent);
    assert_eq!(choose_sharing_mode(0, 0), SharingMode::Exclusive);
    assert_eq!(choose_sharing_mode(7, 7), SharingMode::Exclusive);
}

#[test]
fn plan_combines_the_policies() {
    let adapter = candidate(
        vec![format(BGRA_SRGB, 0), preferred()],
        vec![PRESENT_MODE_FIFO, PRESENT_MODE_MAILBOX],
        capabilities(2, 3, ANY_EXTENT),
    );
    let indices = QueueFamilyIndices { graphics: Some(0), present: Some(1) };
    let plan = plan_swapchain(&adapter, &indices, Extent { width: 3000, height: 10 }).unwrap();
    assert_eq!(plan.format, preferred());
    assert_eq!(plan.present_mode, PRESENT_MODE_MAILBOX);
    assert_eq!(plan.extent, Extent { width: 2000, height: 50 });
    assert_eq!(plan.image_count, 3);
    assert_eq!(plan.sharing_mode, SharingMode::Concurrent);
    assert_eq!(plan.queue_families, vec![0, 1]);
    assert_eq!(plan.image_array_layers, 1);
    assert_eq!(plan.image_usage, 0x10);
    assert_eq!(plan.pre_transform, 4);
    assert_eq!(plan.composite_alpha, 0x1);
    assert!(plan.clipped);
}

#[test]
fn plan_for_a_shared_family_is_exclusive() {
    let adapter = candidate(
        vec![format(BGRA_SRGB, 0)],
        vec![PRESENT_MODE_IMMEDIATE],
        capabilities(1, 1, 640),
    );
    let indices = QueueFamilyIndices { graphics: Some(2), present: Some(2) };
    let plan = plan_swapchain(&adapter, &indices, Extent { width: 1, height: 1 }).unwrap();
    assert_eq!(plan.format, format(BGRA_SRGB, 0));
    assert_eq!(plan.present_mode, PRESENT_MODE_FIFO);
    assert_eq!(plan.extent, Extent { width: 640, height: 600 });
    assert_eq!(plan.image_count, 1);
    assert_eq!(plan.sharing_mode, SharingMode::Exclusive);
    assert!(plan.queue_families.is_empty());
}

#[test]
fn no_plan_without_a_format_resolved_families_or_a_count_that_fits() {
    let unplannable = RendererError::ResourceCreationFailed(Resource::Swapchain);
    let complete = QueueFamilyIndices { graphics: Some(0), present: Some(0) };
    let window = Extent { width: 800, height: 600 };
    let no_format = candidate(Vec::new(), vec![PRESENT_MODE_FIFO], capabilities(2, 0, 800));
    assert_eq!(plan_swapchain(&no_format, &complete, window).err(), Some(unplannable));
    let adapter = candidate(vec![preferred()], vec![PRESENT_MODE_FIFO], capabilities(2, 0, 800));
    let incomplete = QueueFamilyIndices { graphics: Some(0), present: None };
    assert_eq!(plan_swapchain(&adapter, &incomplete, window).err(), Some(unplannable));
    let too_many =
        candidate(vec![preferred()], vec![PRESENT_MODE_FIFO], capabilities(u32::MAX, 0, 800));
    assert_eq!(plan_swapchain(&too_many, &complete, window).err(), Some(unplannable));
    assert!(plan_swapchain(&adapter, &complete, window).is_ok());
}

#[test]
fn image_view_is_a_plain_color_view_of_its_image() {
    assert_eq!(
        plan_image_view(FORMAT_R8G8B8A8_SRGB, 2),
        ImageViewPlan {
            image_index: 2,
            format: 43,
            view_type: 1,
            swizzle_r: 0,
            swizzle_g: 0,
            swizzle_b: 0,
            swizzle_a: 0,
            aspect_mask: 1,
            base_mip_level: 0,
            level_count: 1,
            base_array_layer: 0,
            layer_count: 1,
        }
    );
    assert_eq!(plan_image_view(BGRA_SRGB, 0).format, BGRA_SRGB);
    assert_eq!(plan_image_view(BGRA_SRGB, 0).image_index, 0);
}

#[test]
fn surface_codes_agree_with_the_driver_bindings() {
    assert_eq!(FORMAT_R8G8B8A8_SRGB, ash::vk::Format::R8G8B8A8_SRGB.as_raw());
    assert_eq!(COLOR_SPACE_SRGB_NONLINEAR, ash::vk::ColorSpaceKHR::SRGB_NONLINEAR.as_raw());
    assert_eq!(PRESENT_MODE_IMMEDIATE, ash::vk::PresentModeKHR::IMMEDIATE.as_raw());
    assert_eq!(PRESENT_MODE_MAILBOX, ash::vk::PresentModeKHR::MAILBOX.as_raw());
    assert_eq!(PRESENT_MODE_FIFO, ash::vk::PresentModeKHR::FIFO.as_raw());
    assert_eq!(ANY_EXTENT, u32::MAX);
    assert_eq!(IMAGE_VIEW_TYPE_2D, ash::vk::ImageViewType::TYPE_2D.as_raw());
    assert_eq!(COMPONENT_SWIZZLE_IDENTITY, ash::vk::ComponentSwizzle::IDENTITY.as_raw());
    assert_eq!(IMAGE_ASPECT_COLOR, ash::vk::ImageAspectFlags::COLOR.as_raw());
    assert_eq!(IMAGE_USAGE_COLOR_ATTACHMENT, ash::vk::ImageUsageFlags::COLOR_ATTACHMENT.as_raw());
    assert_eq!(COMPOSITE_ALPHA_OPAQUE, ash::vk::CompositeAlphaFlagsKHR::OPAQUE.as_raw());
}
