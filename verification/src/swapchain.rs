//! Parameter decisions for swapchain creation.
//!
//! Building or rebuilding the swapchain marshals mostly fixed parameters
//! into the driver; the two values that are actually computed are decided
//! here: how many images to request, and how the images are shared between
//! queue families.

use vstd::prelude::*;

use crate::surface::SurfaceCapabilities;

verus! {

/// Images are owned by one queue family at a time.
pub const SHARING_MODE_EXCLUSIVE: i32 = 0;

/// Images are shared between the queue families named at creation.
pub const SHARING_MODE_CONCURRENT: i32 = 1;

/// The number of images to request: one more than the surface's minimum,
/// capped by the surface's maximum.
pub fn choose_min_image_count(caps: &SurfaceCapabilities) -> (n: u32)
    requires
        caps.min_image_count < u32::MAX,
    ensures
        n == if caps.max_image_count < caps.min_image_count + 1 {
            caps.max_image_count
        } else {
            (caps.min_image_count + 1) as u32
        },
{
    let want: u32 = caps.min_image_count + 1;
    if caps.max_image_count < want {
        caps.max_image_count
    } else {
        want
    }
}

/// The image sharing mode: concurrent when more than one queue family will
/// touch the images, exclusive otherwise.
pub fn choose_sharing_mode(queue_family_count: usize) -> (m: i32)
    ensures
        queue_family_count > 1 ==> m == SHARING_MODE_CONCURRENT,
        queue_family_count <= 1 ==> m == SHARING_MODE_EXCLUSIVE,
{
    if queue_family_count > 1 {
        SHARING_MODE_CONCURRENT
    } else {
        SHARING_MODE_EXCLUSIVE
    }
}

} // verus!
