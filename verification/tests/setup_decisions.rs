//! Tests for the setup decisions: surface attributes, swapchain parameters,
//! memory types, formats, layout barriers, queue families and the API
//! version encoding.

use vkframe::error::RenderError;
use vkframe::format::{
    depth_format_candidates, filter_supported_format, find_depth_format, has_stencil_component,
    FormatProperties, FORMAT_D24_UNORM_S8_UINT, FORMAT_D32_SFLOAT, FORMAT_D32_SFLOAT_S8_UINT,
    IMAGE_TILING_LINEAR, IMAGE_TILING_OPTIMAL,
};
use vkframe::image_layout::{
    barrier_access_masks, ACCESS_COLOR_ATTACHMENT_WRITE, ACCESS_DEPTH_STENCIL_ATTACHMENT_WRITE,
    ACCESS_HOST_WRITE, ACCESS_SHADER_READ, ACCESS_TRANSFER_READ, ACCESS_TRANSFER_WRITE,
    IMAGE_LAYOUT_COLOR_ATTACHMENT_OPTIMAL, IMAGE_LAYOUT_DEPTH_STENCIL_ATTACHMENT_OPTIMAL,
    IMAGE_LAYOUT_PREINITIALIZED, IMAGE_LAYOUT_SHADER_READ_ONLY_OPTIMAL,
    IMAGE_LAYOUT_TRANSFER_DST_OPTIMAL, IMAGE_LAYOUT_TRANSFER_SRC_OPTIMAL, IMAGE_LAYOUT_UNDEFINED,
};
use vkframe::instance::{make_api_version, VulkanApiVersion};
use vkframe::memory::find_memory_type;
use vkframe::queue_family::QueueFamilyIndices;
use vkframe::surface::{
    choose_extent, choose_present_mode, choose_surface_format, clamp_u32, extent_is_drawable,
    Extent2D, SurfaceCapabilities, SurfaceFormat, COLOR_SPACE_SRGB_NONLINEAR, PRESENT_MODE_FIFO,
    PRESENT_MODE_MAILBOX,
};
use vkframe::swapchain::{
    choose_min_image_count, choose_sharing_mode, SHARING_MODE_CONCURRENT, SHARING_MODE_EXCLUSIVE,
};

fn caps(current: (u32, u32), min: (u32, u32), max: (u32, u32)) -> SurfaceCapabilities {
    SurfaceCapabilities {
        min_image_count: 2,
        max_image_count: 8,
        current_extent: Extent2D {
            width: current.0,
            height: current.1,
        },
        min_image_extent: Extent2D {
            width: min.0,
            height: min.1,
        },
        max_image_extent: Extent2D {
            width: max.0,
            height: max.1,
        },
    }
}

#[test]
fn fixed_current_extent_wins_over_window_size() {
    let c = caps((800, 600), (1, 1), (4096, 4096));
    let e = choose_extent(
        &c,
        Extent2D {
            width: 333,
            height: 444,
        },
    );
    assert_eq!(
        e,
        Extent2D {
            width: 800,
            height: 600
        }
    );
}

#[test]
fn window_extent_is_clamped_to_surface_limits() {
    let c = caps((u32::MAX, 600), (200, 200), (1000, 1000));
    let e = choose_extent(
        &c,
        Extent2D {
            width: 100,
            height: 2000,
        },
    );
    assert_eq!(
        e,
        Extent2D {
            width: 200,
            height: 1000
        }
    );
    let inside = choose_extent(
        &c,
        Extent2D {
            width: 640,
            height: 480,
        },
    );
    assert_eq!(
        inside,
        Extent2D {
            width: 640,
            height: 480
        }
    );
}

#[test]
fn clamp_holds_its_bounds() {
    assert_eq!(clamp_u32(5, 10, 20), 10);
    assert_eq!(clamp_u32(15, 10, 20), 15);
    assert_eq!(clamp_u32(25, 10, 20), 20);
}

#[test]
fn zero_sized_window_is_not_drawable() {
    assert!(!extent_is_drawable(Extent2D {
        width: 0,
        height: 600
    }));
    assert!(!extent_is_drawable(Extent2D {
        width: 800,
        height: 0
    }));
    assert!(extent_is_drawable(Extent2D {
        width: 1,
        height: 1
    }));
}

#[test]
fn surface_format_picks_first_srgb_match() {
    let formats = vec![
        SurfaceFormat {
            format: 44,
            color_space: COLOR_SPACE_SRGB_NONLINEAR,
        },
        SurfaceFormat {
            format: 50,
            color_space: 7,
        },
        SurfaceFormat {
            format: 50,
            color_space: COLOR_SPACE_SRGB_NONLINEAR,
        },
        SurfaceFormat {
            format: 50,
            color_space: COLOR_SPACE_SRGB_NONLINEAR,
        },
    ];
    let f = choose_surface_format(&formats, 50).unwrap();
    assert_eq!(f.format, 50);
    assert_eq!(f.color_space, COLOR_SPACE_SRGB_NONLINEAR);
}

#[test]
fn surface_format_missing_is_an_error() {
    let formats = vec![SurfaceFormat {
        format: 44,
        color_space: COLOR_SPACE_SRGB_NONLINEAR,
    }];
    let r = choose_surface_format(&formats, 50);
    assert!(matches!(r, Err(RenderError::FormatNotSupported(_))));
}

#[test]
fn mailbox_present_mode_is_preferred() {
    let modes = vec![PRESENT_MODE_FIFO, 0, PRESENT_MODE_MAILBOX];
    assert_eq!(choose_present_mode(&modes), PRESENT_MODE_MAILBOX);
}

#[test]
fn fifo_present_mode_is_the_fallback() {
    let modes = vec![PRESENT_MODE_FIFO, 0, 3];
    assert_eq!(choose_present_mode(&modes), PRESENT_MODE_FIFO);
    let empty: Vec<i32> = vec![];
    assert_eq!(choose_present_mode(&empty), PRESENT_MODE_FIFO);
}

#[test]
fn image_count_is_min_plus_one_capped_by_max() {
    let c = caps((800, 600), (1, 1), (4096, 4096));
    assert_eq!(choose_min_image_count(&c), 3);
    let tight = SurfaceCapabilities {
        min_image_count: 2,
        max_image_count: 2,
        ..c
    };
    assert_eq!(choose_min_image_count(&tight), 2);
}

#[test]
fn sharing_mode_follows_family_count() {
    assert_eq!(choose_sharing_mode(1), SHARING_MODE_EXCLUSIVE);
    assert_eq!(choose_sharing_mode(0), SHARING_MODE_EXCLUSIVE);
    assert_eq!(choose_sharing_mode(2), SHARING_MODE_CONCURRENT);
}

#[test]
fn memory_type_picks_first_admitted_match() {
    // Type 0 is not admitted by the filter; type 1 is admitted but lacks a
    // flag; type 2 is admitted and carries all wanted flags.
    let flags = vec![0x6, 0x2, 0x6, 0x6];
    let r = find_memory_type(&flags, 0b1110, 0x6).unwrap();
    assert_eq!(r, 2);
}

#[test]
fn memory_type_missing_is_an_error() {
    let flags = vec![0x1, 0x2];
    let r = find_memory_type(&flags, 0b11, 0x4);
    assert!(matches!(r, Err(RenderError::MemoryTypeNotSupported(_))));
}

#[test]
fn depth_format_prefers_d32_sfloat() {
    let props = vec![
        FormatProperties {
            linear_tiling_features: 0,
            optimal_tiling_features: 0x200,
        },
        FormatProperties {
            linear_tiling_features: 0,
            optimal_tiling_features: 0x200,
        },
        FormatProperties {
            linear_tiling_features: 0,
            optimal_tiling_features: 0,
        },
    ];
    assert_eq!(find_depth_format(&props).unwrap(), FORMAT_D32_SFLOAT);
}

#[test]
fn depth_format_falls_through_to_later_candidates() {
    let props = vec![
        FormatProperties {
            linear_tiling_features: 0x200,
            optimal_tiling_features: 0,
        },
        FormatProperties {
            linear_tiling_features: 0,
            optimal_tiling_features: 0,
        },
        FormatProperties {
            linear_tiling_features: 0,
            optimal_tiling_features: 0x200,
        },
    ];
    assert_eq!(
        find_depth_format(&props).unwrap(),
        FORMAT_D24_UNORM_S8_UINT
    );
    let none = vec![
        FormatProperties {
            linear_tiling_features: 0,
            optimal_tiling_features: 0,
        };
        3
    ];
    assert!(matches!(
        find_depth_format(&none),
        Err(RenderError::FormatNotSupported(_))
    ));
}

#[test]
fn filter_respects_tiling() {
    let candidates = vec![10, 11];
    let props = vec![
        FormatProperties {
            linear_tiling_features: 0x4,
            optimal_tiling_features: 0,
        },
        FormatProperties {
            linear_tiling_features: 0,
            optimal_tiling_features: 0x4,
        },
    ];
    assert_eq!(
        filter_supported_format(&candidates, &props, IMAGE_TILING_LINEAR, 0x4).unwrap(),
        10
    );
    assert_eq!(
        filter_supported_format(&candidates, &props, IMAGE_TILING_OPTIMAL, 0x4).unwrap(),
        11
    );
}

#[test]
fn depth_candidates_are_fixed_and_ordered() {
    assert_eq!(
        depth_format_candidates(),
        vec![
            FORMAT_D32_SFLOAT,
            FORMAT_D32_SFLOAT_S8_UINT,
            FORMAT_D24_UNORM_S8_UINT
        ]
    );
}

#[test]
fn stencil_component_detection() {
    assert!(has_stencil_component(FORMAT_D32_SFLOAT_S8_UINT));
    assert!(has_stencil_component(FORMAT_D24_UNORM_S8_UINT));
    assert!(!has_stencil_component(FORMAT_D32_SFLOAT));
}

#[test]
fn barrier_masks_for_upload_then_sample() {
    // Fresh image made a transfer destination.
    let (src, dst) = barrier_access_masks(IMAGE_LAYOUT_UNDEFINED, IMAGE_LAYOUT_TRANSFER_DST_OPTIMAL);
    assert_eq!(src, 0);
    assert_eq!(dst, ACCESS_TRANSFER_WRITE);
    // Then handed to the shader.
    let (src, dst) = barrier_access_masks(
        IMAGE_LAYOUT_TRANSFER_DST_OPTIMAL,
        IMAGE_LAYOUT_SHADER_READ_ONLY_OPTIMAL,
    );
    assert_eq!(src, ACCESS_TRANSFER_WRITE);
    assert_eq!(dst, ACCESS_SHADER_READ);
}

#[test]
fn barrier_into_shader_read_from_undefined_guards_writes() {
    let (src, dst) = barrier_access_masks(
        IMAGE_LAYOUT_UNDEFINED,
        IMAGE_LAYOUT_SHADER_READ_ONLY_OPTIMAL,
    );
    assert_eq!(src, ACCESS_HOST_WRITE | ACCESS_TRANSFER_WRITE);
    assert_eq!(dst, ACCESS_SHADER_READ);
}

#[test]
fn barrier_masks_for_remaining_layouts() {
    let (src, dst) = barrier_access_masks(
        IMAGE_LAYOUT_PREINITIALIZED,
        IMAGE_LAYOUT_TRANSFER_SRC_OPTIMAL,
    );
    assert_eq!(src, ACCESS_HOST_WRITE);
    assert_eq!(dst, ACCESS_TRANSFER_READ);
    let (src, dst) = barrier_access_masks(
        IMAGE_LAYOUT_UNDEFINED,
        IMAGE_LAYOUT_COLOR_ATTACHMENT_OPTIMAL,
    );
    assert_eq!(src, 0);
    assert_eq!(dst, ACCESS_COLOR_ATTACHMENT_WRITE);
    let (src, dst) = barrier_access_masks(
        IMAGE_LAYOUT_UNDEFINED,
        IMAGE_LAYOUT_DEPTH_STENCIL_ATTACHMENT_OPTIMAL,
    );
    assert_eq!(src, 0);
    assert_eq!(dst, ACCESS_DEPTH_STENCIL_ATTACHMENT_WRITE);
}

#[test]
fn queue_family_readiness_needs_both_families() {
    let mut q = QueueFamilyIndices::default();
    assert!(!q.is_ready());
    q.graphic_family = Some(0);
    assert!(!q.is_ready());
    q.present_family = Some(2);
    assert!(q.is_ready());
}

#[test]
fn merge_of_equal_families_is_one_entry() {
    let q = QueueFamilyIndices {
        graphic_family: Some(3),
        present_family: Some(3),
    };
    assert_eq!(q.merge().unwrap(), vec![3]);
}

#[test]
fn merge_of_distinct_families_keeps_both() {
    let q = QueueFamilyIndices {
        graphic_family: Some(0),
        present_family: Some(2),
    };
    assert_eq!(q.merge().unwrap(), vec![0, 2]);
}

#[test]
fn merge_before_ready_is_none() {
    let q = QueueFamilyIndices {
        graphic_family: Some(0),
        present_family: None,
    };
    assert!(q.merge().is_none());
}

#[test]
fn api_versions_encode_to_their_packed_values() {
    assert_eq!(VulkanApiVersion::V1_0.get_u32_version(), 0x40_0000);
    assert_eq!(VulkanApiVersion::V1_1.get_u32_version(), 0x40_1000);
    assert_eq!(VulkanApiVersion::V1_2.get_u32_version(), 0x40_2000);
    assert_eq!(VulkanApiVersion::V1_3.get_u32_version(), 0x40_3000);
}

#[test]
fn packed_api_version_places_every_field() {
    assert_eq!(make_api_version(0, 1, 3, 0), 4_206_592);
    assert_eq!(
        make_api_version(1, 2, 3, 4),
        (1 << 29) | (2 << 22) | (3 << 12) | 4
    );
}
