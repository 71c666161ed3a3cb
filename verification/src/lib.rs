//! Bootstrap and lifecycle management for a hardware-accelerated rendering
//! context.
//!
//! The crate models every decision the bootstrap sequence makes — picking a
//! physical device, resolving queue families, negotiating a swap chain
//! against surface capabilities, sizing the per-frame resource pool, and
//! ordering teardown — over plain values, with each policy stated in a
//! contract. The driver itself is reached from a thin unverified shell that
//! queries capabilities, hands them here as plain values, and executes the
//! configurations and action lists this crate computes.

use vstd::prelude::*;

pub mod connection;
pub mod context;
pub mod device;
pub mod diagnostics;
pub mod error;
pub mod events;
pub mod frame;
pub mod swapchain;

verus! {

/// How many frames may be in flight at once: the size of the frame
/// resource pool used for double buffering.
pub const FRAMES_IN_FLIGHT: u32 = 2;

/// Default window width in pixels, requested at startup.
pub const WINDOW_WIDTH: u32 = 800;

/// Default window height in pixels, requested at startup.
pub const WINDOW_HEIGHT: u32 = 600;

} // verus!
