//! Surface attributes and the decisions taken when they are (re)queried.
//!
//! When a surface is created, and again on every swapchain recreation, the
//! driver is asked for the surface's capabilities, the supported formats and
//! the supported present modes. The functions here take those reported values
//! and decide the drawable extent, the surface format and the present mode,
//! exactly as the render loop needs them.

use vstd::prelude::*;

use crate::error::{RenderError, RenderResult};

verus! {

/// A drawable extent in pixels.
#[derive(Clone, Copy, PartialEq, Eq, Structural, Debug)]
pub struct Extent2D {
    pub width: u32,
    pub height: u32,
}

/// The fields of the driver's surface-capabilities report that the
/// swapchain decisions read.
#[derive(Clone, Copy, PartialEq, Eq, Structural, Debug)]
pub struct SurfaceCapabilities {
    pub min_image_count: u32,
    pub max_image_count: u32,
    pub current_extent: Extent2D,
    pub min_image_extent: Extent2D,
    pub max_image_extent: Extent2D,
}

/// One entry of the driver's supported-surface-format list.
#[derive(Clone, Copy, PartialEq, Eq, Structural, Debug)]
pub struct SurfaceFormat {
    pub format: i32,
    pub color_space: i32,
}

/// The sRGB nonlinear color space.
pub const COLOR_SPACE_SRGB_NONLINEAR: i32 = 0;

/// The present mode that is preferred when available.
pub const PRESENT_MODE_MAILBOX: i32 = 1;

/// The present mode that every device supports, used as the fallback.
pub const PRESENT_MODE_FIFO: i32 = 2;

/// The sentinel width by which a surface reports that the window, not the
/// surface, determines the extent.
pub const SPECIAL_EXTENT_WIDTH: u32 = 0xffff_ffff;

/// `x` clamped to the closed interval `[lo, hi]`.
pub fn clamp_u32(x: u32, lo: u32, hi: u32) -> (r: u32)
    requires
        lo <= hi,
    ensures
        r == if x < lo {
            lo
        } else if x > hi {
            hi
        } else {
            x
        },
{
    if x < lo {
        lo
    } else if x > hi {
        hi
    } else {
        x
    }
}

/// Whether `caps` leaves the extent to the window: its current extent holds
/// the sentinel width instead of a fixed size.
pub open spec fn extent_left_to_window(caps: SurfaceCapabilities) -> bool {
    caps.current_extent.width == SPECIAL_EXTENT_WIDTH
}

/// The drawable extent for a surface with capabilities `caps` on a window
/// whose inner size is `window_extent`: the surface's own current extent when
/// it fixes one, otherwise the window size clamped to the surface's limits.
pub fn choose_extent(caps: &SurfaceCapabilities, window_extent: Extent2D) -> (e: Extent2D)
    requires
        caps.min_image_extent.width <= caps.max_image_extent.width,
        caps.min_image_extent.height <= caps.max_image_extent.height,
    ensures
        !extent_left_to_window(*caps) ==> e == caps.current_extent,
        extent_left_to_window(*caps) ==> {
            &&& caps.min_image_extent.width <= e.width <= caps.max_image_extent.width
            &&& caps.min_image_extent.height <= e.height <= caps.max_image_extent.height
            &&& (caps.min_image_extent.width <= window_extent.width
                <= caps.max_image_extent.width ==> e.width == window_extent.width)
            &&& (caps.min_image_extent.height <= window_extent.height
                <= caps.max_image_extent.height ==> e.height == window_extent.height)
            &&& (window_extent.width < caps.min_image_extent.width ==> e.width
                == caps.min_image_extent.width)
            &&& (window_extent.width > caps.max_image_extent.width ==> e.width
                == caps.max_image_extent.width)
            &&& (window_extent.height < caps.min_image_extent.height ==> e.height
                == caps.min_image_extent.height)
            &&& (window_extent.height > caps.max_image_extent.height ==> e.height
                == caps.max_image_extent.height)
        },
{
    if caps.current_extent.width != SPECIAL_EXTENT_WIDTH {
        caps.current_extent
    } else {
        Extent2D {
            width: clamp_u32(
                window_extent.width,
                caps.min_image_extent.width,
                caps.max_image_extent.width,
            ),
            height: clamp_u32(
                window_extent.height,
                caps.min_image_extent.height,
                caps.max_image_extent.height,
            ),
        }
    }
}

/// Whether a frame should be drawn at all for a window of this size: a
/// minimized window reports a zero dimension and the loop skips the frame.
pub fn extent_is_drawable(e: Extent2D) -> (b: bool)
    ensures
        b == (e.width > 0 && e.height > 0),
{
    e.width > 0 && e.height > 0
}

/// Whether `f` is acceptable as the surface format: the wanted pixel format
/// in the sRGB nonlinear color space.
pub open spec fn format_acceptable(f: SurfaceFormat, wanted_format: i32) -> bool {
    f.format == wanted_format && f.color_space == COLOR_SPACE_SRGB_NONLINEAR
}

/// The surface format to use: the first reported entry with the wanted pixel
/// format in the sRGB nonlinear color space, or `FormatNotSupported` when the
/// driver reports no such entry.
pub fn choose_surface_format(formats: &Vec<SurfaceFormat>, wanted_format: i32) -> (r: RenderResult<
    SurfaceFormat,
>)
    ensures
        match r {
            Ok(f) => exists|i: int|
                0 <= i < formats@.len() && f == formats@[i] && format_acceptable(f, wanted_format)
                    && (forall|j: int| 0 <= j < i ==> !format_acceptable(formats@[j], wanted_format)),
            Err(e) => (forall|i: int|
                0 <= i < formats@.len() ==> !format_acceptable(formats@[i], wanted_format)) && e
                is FormatNotSupported,
        },
{
    let mut i: usize = 0;
    while i < formats.len()
        invariant
            0 <= i <= formats@.len(),
            forall|j: int| 0 <= j < i ==> !format_acceptable(formats@[j], wanted_format),
        decreases formats@.len() - i,
    {
        let f = formats[i];
        if f.format == wanted_format && f.color_space == COLOR_SPACE_SRGB_NONLINEAR {
            return Ok(f);
        }
        i = i + 1;
    }
    Err(RenderError::FormatNotSupported(String::from_str("Fail at find suitable surface format")))
}

/// The present mode to use: mailbox when the driver reports it, otherwise
/// FIFO, which is always available.
pub fn choose_present_mode(modes: &Vec<i32>) -> (m: i32)
    ensures
        (exists|i: int| 0 <= i < modes@.len() && modes@[i] == PRESENT_MODE_MAILBOX) ==> m
            == PRESENT_MODE_MAILBOX,
        !(exists|i: int| 0 <= i < modes@.len() && modes@[i] == PRESENT_MODE_MAILBOX) ==> m
            == PRESENT_MODE_FIFO,
{
    let mut i: usize = 0;
    while i < modes.len()
        invariant
            0 <= i <= modes@.len(),
            forall|j: int| 0 <= j < i ==> modes@[j] != PRESENT_MODE_MAILBOX,
        decreases modes@.len() - i,
    {
        if modes[i] == PRESENT_MODE_MAILBOX {
            return PRESENT_MODE_MAILBOX;
        }
        i = i + 1;
    }
    PRESENT_MODE_FIFO
}

} // verus!
