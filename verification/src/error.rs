//! The error taxonomy of context construction.
//!
//! Every failure during bootstrap is unrecoverable at this layer: no step is
//! retried and no degraded mode exists, so each variant names the step that
//! failed and nothing more. The only soft fallbacks in the crate are the
//! format, present-mode and extent negotiation defaults, which are policy
//! rather than error recovery.

use vstd::prelude::*;

verus! {

/// Why constructing the rendering context failed.
#[derive(Clone, Copy, Debug, PartialEq, Eq, Structural)]
pub enum ContextError {
    /// The graphics driver entry point could not be loaded.
    DriverUnavailable,
    /// A requested layer or instance extension is absent from the supported
    /// set the driver reported.
    LayerOrExtensionUnsupported,
    /// The driver enumerated no physical devices at all.
    NoDeviceFound,
    /// No queue family satisfies the graphics requirement, or none supports
    /// presentation to the target surface.
    IncompleteQueueFamilies,
    /// The driver rejected the logical-device configuration.
    DeviceCreationFailed,
    /// The platform could not bind the window to a drawable surface.
    SurfaceCreationFailed,
    /// A capability, format or present-mode query against the surface
    /// returned an error.
    SurfaceQueryFailed,
    /// The driver rejected the negotiated swap-chain configuration.
    SwapChainCreationFailed,
    /// A per-frame command pool, command buffer or semaphore could not be
    /// created.
    FrameResourceAllocationFailed,
}

} // verus!
