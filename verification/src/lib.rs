//! Frame-pacing and GPU-resource core of a real-time renderer built on an
//! explicit, Vulkan-style graphics API.
//!
//! The library holds the decision logic of three tightly coupled subsystems:
//! the device-memory partitioning and allocation layer, the swapchain
//! lifecycle manager, and the per-frame synchronizer that orders compute,
//! graphics and present work across queues with a bounded number of frames in
//! flight. All graphics-API calls, windowing and file loading live outside the
//! library; it receives plain values (sizes, alignments, capability numbers,
//! acquire and present outcomes) and returns the exact layouts, choices and
//! action sequences that the caller must carry out.

use vstd::prelude::*;

pub mod counters;
pub mod dynamic_container;
pub mod frame_sync;
pub mod keys;
pub mod linear_2d_vec;
pub mod memory;
pub mod models;
pub mod partition;
pub mod physical_device;
pub mod swapchain;
pub mod textures;
pub mod tiers;
pub mod utility;

verus! {

/// Number of frame slots rotated by the synchronizer; the per-tick protocol
/// is written for exactly this bound.
pub const FRAMES_IN_FLIGHT: usize = 2;

/// Whether the present-mode selection prefers non-vsynced modes.
pub const ENABLE_VSYNC: bool = false;

} // verus!
