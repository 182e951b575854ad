//! Verified decision core of a small real-time rendering engine.
//!
//! The engine drives a low-level GPU graphics API: it selects a physical
//! accelerator, derives swapchain parameters from surface capabilities,
//! runs a fixed ring of frame slots with explicit synchronization, records
//! image-layout transitions and a compute-based background pass per frame,
//! and tears GPU objects down through a deferred deletion queue.
//!
//! Every raw GPU API call is unsafe foreign code and therefore lives outside
//! this crate, in the thin runtime around it.  What lives here is everything
//! the engine decides: which device and queue families to use, which surface
//! format, present mode, extent and image count to create the swapchain with,
//! which commands a frame records and in which order, how the frame-slot ring
//! advances, and in which order deferred destructors run.  Those decisions are
//! stated as contracts and proved.

use vstd::prelude::*;

pub mod deletion_queue;
pub mod device;
pub mod error;
pub mod frame;
pub mod instance;
pub mod swapchain;

verus! {

/// Number of frame slots that may be in flight at once.
pub const MAX_FRAMES: usize = 2;

} // verus!
