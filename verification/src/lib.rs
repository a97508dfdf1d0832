//! Frame synchronization and swapchain lifecycle for a Vulkan render loop.
//!
//! The heart of the crate is [`frame_sync::FrameSync`], a verified model of the
//! per-frame synchronization protocol: wait on the slot's fence, acquire a
//! presentable image, submit, present, and rebuild the swapchain object set
//! when the presentation engine reports it out of date or the window is
//! resized. The driver calls themselves are performed by the embedding render
//! loop; this crate decides which call comes next and accounts for the
//! outcome of each.
//!
//! The remaining modules hold the pure decisions of swapchain and device
//! setup: surface format and present-mode selection, extent clamping,
//! swapchain creation parameters, memory-type and depth-format search,
//! image-layout barrier masks, and queue-family bookkeeping.

pub mod camera;
pub mod error;
pub mod format;
pub mod frame_sync;
pub mod image_layout;
pub mod instance;
pub mod material;
pub mod memory;
pub mod queue_family;
pub mod surface;
pub mod swapchain;
