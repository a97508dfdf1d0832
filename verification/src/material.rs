//! The vocabulary of materials.
//!
//! Material parameters are floating-point factors and texture references and
//! live with the renderer; the alpha-blending mode they share is declared
//! here.

use vstd::prelude::*;

verus! {

/// How a material's alpha channel is applied.
pub enum AlphaMode {
    Opaque,
    Mask,
    Blend,
}

} // verus!
