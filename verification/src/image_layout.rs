//! Access masks for image layout transitions.
//!
//! A layout transition is recorded as a pipeline barrier; what has to be
//! computed is the pair of access masks: the source mask names the accesses
//! that must have finished on the old layout, the destination mask the
//! accesses that wait for the new one. Transitioning into the shader-read
//! layout from a layout with no outstanding accesses additionally guards
//! host and transfer writes, so an upload is visible before sampling.

use vstd::prelude::*;

verus! {

/// Image layout: undefined contents, only valid as an initial layout.
pub const IMAGE_LAYOUT_UNDEFINED: i32 = 0;

/// Image layout: optimal as a color attachment.
pub const IMAGE_LAYOUT_COLOR_ATTACHMENT_OPTIMAL: i32 = 2;

/// Image layout: optimal as a depth/stencil attachment.
pub const IMAGE_LAYOUT_DEPTH_STENCIL_ATTACHMENT_OPTIMAL: i32 = 3;

/// Image layout: optimal for shader reads.
pub const IMAGE_LAYOUT_SHADER_READ_ONLY_OPTIMAL: i32 = 5;

/// Image layout: optimal as a transfer source.
pub const IMAGE_LAYOUT_TRANSFER_SRC_OPTIMAL: i32 = 6;

/// Image layout: optimal as a transfer destination.
pub const IMAGE_LAYOUT_TRANSFER_DST_OPTIMAL: i32 = 7;

/// Image layout: preinitialized host-visible contents, only valid as an
/// initial layout for linear images.
pub const IMAGE_LAYOUT_PREINITIALIZED: i32 = 8;

/// No access.
pub const ACCESS_NONE: u32 = 0;

/// Shader read access.
pub const ACCESS_SHADER_READ: u32 = 0x20;

/// Color attachment write access.
pub const ACCESS_COLOR_ATTACHMENT_WRITE: u32 = 0x100;

/// Depth/stencil attachment write access.
pub const ACCESS_DEPTH_STENCIL_ATTACHMENT_WRITE: u32 = 0x400;

/// Transfer read access.
pub const ACCESS_TRANSFER_READ: u32 = 0x800;

/// Transfer write access.
pub const ACCESS_TRANSFER_WRITE: u32 = 0x1000;

/// Host write access.
pub const ACCESS_HOST_WRITE: u32 = 0x4000;

/// The old layouts a transition may start from.
pub open spec fn src_layout_supported(l: i32) -> bool {
    ||| l == IMAGE_LAYOUT_UNDEFINED
    ||| l == IMAGE_LAYOUT_PREINITIALIZED
    ||| l == IMAGE_LAYOUT_COLOR_ATTACHMENT_OPTIMAL
    ||| l == IMAGE_LAYOUT_TRANSFER_SRC_OPTIMAL
    ||| l == IMAGE_LAYOUT_TRANSFER_DST_OPTIMAL
    ||| l == IMAGE_LAYOUT_SHADER_READ_ONLY_OPTIMAL
}

/// The new layouts a transition may move to.
pub open spec fn dst_layout_supported(l: i32) -> bool {
    ||| l == IMAGE_LAYOUT_TRANSFER_DST_OPTIMAL
    ||| l == IMAGE_LAYOUT_TRANSFER_SRC_OPTIMAL
    ||| l == IMAGE_LAYOUT_COLOR_ATTACHMENT_OPTIMAL
    ||| l == IMAGE_LAYOUT_DEPTH_STENCIL_ATTACHMENT_OPTIMAL
    ||| l == IMAGE_LAYOUT_SHADER_READ_ONLY_OPTIMAL
}

/// The accesses that must have finished on the old layout.
pub open spec fn src_access_for(l: i32) -> u32 {
    if l == IMAGE_LAYOUT_PREINITIALIZED {
        ACCESS_HOST_WRITE
    } else if l == IMAGE_LAYOUT_COLOR_ATTACHMENT_OPTIMAL {
        ACCESS_DEPTH_STENCIL_ATTACHMENT_WRITE
    } else if l == IMAGE_LAYOUT_TRANSFER_SRC_OPTIMAL {
        ACCESS_TRANSFER_READ
    } else if l == IMAGE_LAYOUT_TRANSFER_DST_OPTIMAL {
        ACCESS_TRANSFER_WRITE
    } else if l == IMAGE_LAYOUT_SHADER_READ_ONLY_OPTIMAL {
        ACCESS_SHADER_READ
    } else {
        ACCESS_NONE
    }
}

/// The accesses that wait for the new layout.
pub open spec fn dst_access_for(l: i32) -> u32 {
    if l == IMAGE_LAYOUT_TRANSFER_DST_OPTIMAL {
        ACCESS_TRANSFER_WRITE
    } else if l == IMAGE_LAYOUT_TRANSFER_SRC_OPTIMAL {
        ACCESS_TRANSFER_READ
    } else if l == IMAGE_LAYOUT_COLOR_ATTACHMENT_OPTIMAL {
        ACCESS_COLOR_ATTACHMENT_WRITE
    } else if l == IMAGE_LAYOUT_DEPTH_STENCIL_ATTACHMENT_OPTIMAL {
        ACCESS_DEPTH_STENCIL_ATTACHMENT_WRITE
    } else {
        ACCESS_SHADER_READ
    }
}

/// The source mask of the barrier: the old layout's mask, except that a
/// transition into the shader-read layout with nothing outstanding guards
/// host and transfer writes instead.
pub open spec fn barrier_src_access(old_layout: i32, new_layout: i32) -> u32 {
    if new_layout == IMAGE_LAYOUT_SHADER_READ_ONLY_OPTIMAL && src_access_for(old_layout)
        == ACCESS_NONE {
        ACCESS_HOST_WRITE | ACCESS_TRANSFER_WRITE
    } else {
        src_access_for(old_layout)
    }
}

/// The `(source, destination)` access masks of the barrier that transitions
/// an image from `old_layout` to `new_layout`.
pub fn barrier_access_masks(old_layout: i32, new_layout: i32) -> (r: (u32, u32))
    requires
        src_layout_supported(old_layout),
        dst_layout_supported(new_layout),
    ensures
        r.0 == barrier_src_access(old_layout, new_layout),
        r.1 == dst_access_for(new_layout),
{
    let mut src_access_mask: u32 = if old_layout == IMAGE_LAYOUT_PREINITIALIZED {
        ACCESS_HOST_WRITE
    } else if old_layout == IMAGE_LAYOUT_COLOR_ATTACHMENT_OPTIMAL {
        ACCESS_DEPTH_STENCIL_ATTACHMENT_WRITE
    } else if old_layout == IMAGE_LAYOUT_TRANSFER_SRC_OPTIMAL {
        ACCESS_TRANSFER_READ
    } else if old_layout == IMAGE_LAYOUT_TRANSFER_DST_OPTIMAL {
        ACCESS_TRANSFER_WRITE
    } else if old_layout == IMAGE_LAYOUT_SHADER_READ_ONLY_OPTIMAL {
        ACCESS_SHADER_READ
    } else {
        ACCESS_NONE
    };
    let dst_access_mask: u32 = if new_layout == IMAGE_LAYOUT_TRANSFER_DST_OPTIMAL {
        ACCESS_TRANSFER_WRITE
    } else if new_layout == IMAGE_LAYOUT_TRANSFER_SRC_OPTIMAL {
        ACCESS_TRANSFER_READ
    } else if new_layout == IMAGE_LAYOUT_COLOR_ATTACHMENT_OPTIMAL {
        ACCESS_COLOR_ATTACHMENT_WRITE
    } else if new_layout == IMAGE_LAYOUT_DEPTH_STENCIL_ATTACHMENT_OPTIMAL {
        ACCESS_DEPTH_STENCIL_ATTACHMENT_WRITE
    } else {
        if src_access_mask == ACCESS_NONE {
            src_access_mask = ACCESS_HOST_WRITE | ACCESS_TRANSFER_WRITE;
        }
        ACCESS_SHADER_READ
    };
    (src_access_mask, dst_access_mask)
}

} // verus!
