//! Pixel-format decisions: picking a supported format from a candidate list,
//! and the depth-format search used for the depth/stencil attachment.
//!
//! The driver is asked for the feature flags of each candidate format; the
//! decision is the first candidate whose features, under the requested
//! tiling, include everything asked for.

use vstd::prelude::*;

use crate::error::{RenderError, RenderResult};

verus! {

/// The default surface pixel format: 8-bit BGRA, sRGB.
pub const FORMAT_B8G8R8A8_SRGB: i32 = 50;

/// A 32-bit float depth format.
pub const FORMAT_D32_SFLOAT: i32 = 126;

/// A 24-bit depth format with an 8-bit stencil part.
pub const FORMAT_D24_UNORM_S8_UINT: i32 = 129;

/// A 32-bit float depth format with an 8-bit stencil part.
pub const FORMAT_D32_SFLOAT_S8_UINT: i32 = 130;

/// Optimal (opaque, driver-chosen) image tiling.
pub const IMAGE_TILING_OPTIMAL: i32 = 0;

/// Linear (row-major) image tiling.
pub const IMAGE_TILING_LINEAR: i32 = 1;

/// The format-feature bit for use as a depth/stencil attachment.
pub const FORMAT_FEATURE_DEPTH_STENCIL_ATTACHMENT: u32 = 0x200;

/// The feature flags the driver reports for one format, per tiling.
#[derive(Clone, Copy, PartialEq, Eq, Structural, Debug)]
pub struct FormatProperties {
    pub linear_tiling_features: u32,
    pub optimal_tiling_features: u32,
}

/// Whether a format with reported properties `p` supports every feature of
/// `features` under the given tiling.
pub open spec fn tiling_features_support(p: FormatProperties, tiling: i32, features: u32) -> bool {
    ||| (tiling == IMAGE_TILING_LINEAR && p.linear_tiling_features & features == features)
    ||| (tiling == IMAGE_TILING_OPTIMAL && p.optimal_tiling_features & features == features)
}

/// The first candidate format that supports every requested feature under
/// the given tiling, or `FormatNotSupported` when none does. `properties`
/// holds the driver-reported feature flags of each candidate, in the same
/// order.
pub fn filter_supported_format(
    candidates: &Vec<i32>,
    properties: &Vec<FormatProperties>,
    tiling: i32,
    features: u32,
) -> (r: RenderResult<i32>)
    requires
        candidates@.len() == properties@.len(),
    ensures
        match r {
            Ok(f) => exists|i: int|
                0 <= i < candidates@.len() && f == candidates@[i] && tiling_features_support(
                    properties@[i],
                    tiling,
                    features,
                ) && (forall|j: int|
                    0 <= j < i ==> !tiling_features_support(properties@[j], tiling, features)),
            Err(e) => (forall|i: int|
                0 <= i < candidates@.len() ==> !tiling_features_support(
                    properties@[i],
                    tiling,
                    features,
                )) && e is FormatNotSupported,
        },
{
    let mut i: usize = 0;
    while i < candidates.len()
        invariant
            candidates@.len() == properties@.len(),
            0 <= i <= candidates@.len(),
            forall|j: int| 0 <= j < i ==> !tiling_features_support(properties@[j], tiling, features),
        decreases candidates@.len() - i,
    {
        let p = properties[i];
        if (tiling == IMAGE_TILING_LINEAR && (p.linear_tiling_features & features) == features) || (
        tiling == IMAGE_TILING_OPTIMAL && (p.optimal_tiling_features & features) == features) {
            return Ok(candidates[i]);
        }
        i = i + 1;
    }
    Err(RenderError::FormatNotSupported(String::from_str("Failed to find supported format")))
}

/// The depth formats tried for the depth/stencil attachment, best first.
pub open spec fn depth_candidates() -> Seq<i32> {
    seq![FORMAT_D32_SFLOAT, FORMAT_D32_SFLOAT_S8_UINT, FORMAT_D24_UNORM_S8_UINT]
}

/// The candidate list of [`depth_candidates`] as a vector, in order.
pub fn depth_format_candidates() -> (v: Vec<i32>)
    ensures
        v@ == depth_candidates(),
{
    let mut v: Vec<i32> = Vec::new();
    v.push(FORMAT_D32_SFLOAT);
    v.push(FORMAT_D32_SFLOAT_S8_UINT);
    v.push(FORMAT_D24_UNORM_S8_UINT);
    proof {
        assert(v@ =~= depth_candidates());
    }
    v
}

/// The depth format for the depth/stencil attachment: the first of the
/// candidates that can serve as a depth/stencil attachment under optimal
/// tiling. `properties` holds the driver-reported feature flags of the three
/// candidates, in candidate order.
pub fn find_depth_format(properties: &Vec<FormatProperties>) -> (r: RenderResult<i32>)
    requires
        properties@.len() == depth_candidates().len(),
    ensures
        match r {
            Ok(f) => exists|i: int|
                0 <= i < depth_candidates().len() && f == depth_candidates()[i]
                    && tiling_features_support(
                    properties@[i],
                    IMAGE_TILING_OPTIMAL,
                    FORMAT_FEATURE_DEPTH_STENCIL_ATTACHMENT,
                ) && (forall|j: int|
                    0 <= j < i ==> !tiling_features_support(
                        properties@[j],
                        IMAGE_TILING_OPTIMAL,
                        FORMAT_FEATURE_DEPTH_STENCIL_ATTACHMENT,
                    )),
            Err(e) => (forall|i: int|
                0 <= i < depth_candidates().len() ==> !tiling_features_support(
                    properties@[i],
                    IMAGE_TILING_OPTIMAL,
                    FORMAT_FEATURE_DEPTH_STENCIL_ATTACHMENT,
                )) && e is FormatNotSupported,
        },
{
    let candidates = depth_format_candidates();
    filter_supported_format(
        &candidates,
        properties,
        IMAGE_TILING_OPTIMAL,
        FORMAT_FEATURE_DEPTH_STENCIL_ATTACHMENT,
    )
}

/// Whether `format` carries a stencil part.
pub fn has_stencil_component(format: i32) -> (b: bool)
    ensures
        b == (format == FORMAT_D32_SFLOAT_S8_UINT || format == FORMAT_D24_UNORM_S8_UINT),
{
    format == FORMAT_D32_SFLOAT_S8_UINT || format == FORMAT_D24_UNORM_S8_UINT
}

} // verus!
