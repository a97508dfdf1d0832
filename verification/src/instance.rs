//! The Vulkan API version an instance is created for, and its packed
//! 32-bit encoding.

use vstd::prelude::*;

verus! {

/// The core API versions an instance can ask for.
#[derive(Clone, Copy, Debug, PartialEq, Eq, Structural)]
pub enum VulkanApiVersion {
    V1_0,
    V1_1,
    V1_2,
    V1_3,
}

/// The packed encoding of each core API version: variant 0, major 1, the
/// minor number in bits 12..22, patch 0.
pub open spec fn spec_api_version_u32(v: VulkanApiVersion) -> u32 {
    match v {
        VulkanApiVersion::V1_0 => 0x40_0000u32,
        VulkanApiVersion::V1_1 => 0x40_1000u32,
        VulkanApiVersion::V1_2 => 0x40_2000u32,
        VulkanApiVersion::V1_3 => 0x40_3000u32,
    }
}

/// The packed 32-bit API version: variant in bits 29..32, major in 22..29,
/// minor in 12..22, patch in 0..12.
pub fn make_api_version(variant: u32, major: u32, minor: u32, patch: u32) -> (r: u32)
    requires
        variant < 8,
        major < 0x80,
        minor < 0x400,
        patch < 0x1000,
    ensures
        r == variant * 0x2000_0000 + major * 0x40_0000 + minor * 0x1000 + patch,
{
    let r: u32 = (variant << 29u32) | (major << 22u32) | (minor << 12u32) | patch;
    proof {
        assert((variant << 29u32) | (major << 22u32) | (minor << 12u32) | patch == variant
            * 0x2000_0000 + major * 0x40_0000 + minor * 0x1000 + patch) by (bit_vector)
            requires
                variant < 8,
                major < 0x80,
                minor < 0x400,
                patch < 0x1000,
        ;
    }
    r
}

impl VulkanApiVersion {
    /// The packed 32-bit encoding of this version.
    pub fn get_u32_version(&self) -> (r: u32)
        ensures
            r == spec_api_version_u32(*self),
    {
        match self {
            VulkanApiVersion::V1_0 => make_api_version(0, 1, 0, 0),
            VulkanApiVersion::V1_1 => make_api_version(0, 1, 1, 0),
            VulkanApiVersion::V1_2 => make_api_version(0, 1, 2, 0),
            VulkanApiVersion::V1_3 => make_api_version(0, 1, 3, 0),
        }
    }
}

} // verus!
