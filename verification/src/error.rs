//! Error taxonomy of the library.
//!
//! Recoverable staleness of the swapchain (out of date, suboptimal) is never
//! surfaced as an error: it is handled by recreation inside the frame
//! protocol. What remains here are the fatal outcomes: a non-success code
//! from the driver, or a setup query that found nothing suitable.

use vstd::prelude::*;

verus! {

/// A fatal outcome of device setup or of a frame.
///
/// `VkResult` carries the raw driver result code of a failed call.
/// The remaining variants are raised by the setup decisions of this crate
/// when a query over the device's reported capabilities finds no match.
#[derive(Debug)]
pub enum RenderError {
    VkResult(i32),
    FormatNotSupported(String),
    MemoryTypeNotSupported(String),
}

pub type RenderResult<T> = Result<T, RenderError>;

} // verus!
