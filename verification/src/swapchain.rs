//! Swap-chain negotiation: format, present mode, extent, image count, and
//! the per-image view configuration.
//!
//! All negotiation runs against an immutable snapshot of what the surface
//! supports — capabilities, formats and present modes — captured once at
//! swap-chain creation time. The numeric format, color-space, present-mode
//! and flag values follow the driver API's numbering so the boundary layer
//! can pass them through unchanged.

use vstd::prelude::*;

use crate::error::ContextError;

verus! {

/// Present mode: frames are queued and presented in order at the display
/// rate. The one mode the driver's presentation contract guarantees, hence
/// the universal fallback.
pub const PRESENT_MODE_FIFO: u32 = 2;

/// Present mode: the newest ready frame replaces any queued one. Preferred
/// by default, but not universally supported.
pub const PRESENT_MODE_MAILBOX: u32 = 1;

/// Pixel format: three 8-bit channels, blue first, unsigned normalized.
pub const FORMAT_B8G8R8_UNORM: u32 = 30;

/// Color space: non-linear sRGB, the baseline presentation color space.
pub const COLOR_SPACE_SRGB_NONLINEAR: u32 = 0;

/// Image usage bit: the image may serve as a color attachment.
pub const IMAGE_USAGE_COLOR_ATTACHMENT: u32 = 0x10;

/// Sharing mode: a single queue family accesses the images at a time.
pub const SHARING_MODE_EXCLUSIVE: u32 = 0;

/// Composite-alpha bit: the surface is treated as fully opaque.
pub const COMPOSITE_ALPHA_OPAQUE: u32 = 1;

/// Image-view dimensionality: an ordinary 2D view.
pub const IMAGE_VIEW_TYPE_2D: u32 = 1;

/// Component swizzle: each channel reads its own component.
pub const COMPONENT_SWIZZLE_IDENTITY: u32 = 0;

/// Image-aspect bit: the color aspect of the image.
pub const IMAGE_ASPECT_COLOR: u32 = 1;

/// A width and height in pixels.
#[derive(Clone, Copy, Debug, PartialEq, Eq, Structural)]
pub struct Extent2D {
    pub width: u32,
    pub height: u32,
}

/// A surface format: a pixel format paired with a color space.
#[derive(Clone, Copy, Debug, PartialEq, Eq, Structural)]
pub struct SurfaceFormat {
    pub format: u32,
    pub color_space: u32,
}

/// What the surface-capability query reports. A `current_extent` width of
/// `u32::MAX` is the driver's sentinel for "the caller defines the extent".
#[derive(Clone, Copy, Debug, PartialEq, Eq, Structural)]
pub struct SurfaceCapabilities {
    /// Fewest images the driver will create a chain with.
    pub min_image_count: u32,
    /// Most images allowed, zero meaning no limit.
    pub max_image_count: u32,
    /// The surface's current size, or the caller-defined sentinel.
    pub current_extent: Extent2D,
    /// Lower bound on a caller-defined extent, per dimension.
    pub min_image_extent: Extent2D,
    /// Upper bound on a caller-defined extent, per dimension.
    pub max_image_extent: Extent2D,
    /// The transform the surface is currently presented with.
    pub current_transform: u32,
}

/// The snapshot of surface support that negotiation runs against. Immutable
/// once captured; recreating the chain would require a fresh snapshot.
pub struct SwapchainSupportDetails {
    pub caps: SurfaceCapabilities,
    pub formats: Vec<SurfaceFormat>,
    pub present_modes: Vec<u32>,
}

/// The format negotiation policy: the preferred format when the surface
/// supports it, otherwise the first supported format.
pub open spec fn chosen_format(formats: Seq<SurfaceFormat>, preferred: SurfaceFormat) -> SurfaceFormat {
    if formats.contains(preferred) {
        preferred
    } else {
        formats[0]
    }
}

/// The present-mode negotiation policy: the preferred mode when supported,
/// otherwise the universally guaranteed FIFO mode — never an arbitrary
/// third mode.
pub open spec fn chosen_present_mode(modes: Seq<u32>, preferred: u32) -> u32 {
    if modes.contains(preferred) {
        preferred
    } else {
        PRESENT_MODE_FIFO
    }
}

/// `x` clamped into `[lo, hi]`, taking the lower bound first when the
/// bounds are out of order.
pub open spec fn clamp_u32(x: u32, lo: u32, hi: u32) -> u32 {
    if x < lo {
        lo
    } else if x > hi {
        hi
    } else {
        x
    }
}

/// The extent negotiation policy: the capability-reported current extent
/// verbatim, unless the driver signals caller-defined sizing, in which case
/// the requested width and height are clamped independently into the
/// reported bounds.
pub open spec fn chosen_extent(caps: SurfaceCapabilities, width: u32, height: u32) -> Extent2D {
    if caps.current_extent.width != u32::MAX {
        caps.current_extent
    } else {
        Extent2D {
            width: clamp_u32(width, caps.min_image_extent.width, caps.max_image_extent.width),
            height: clamp_u32(height, caps.min_image_extent.height, caps.max_image_extent.height),
        }
    }
}

/// The format negotiation is deterministic and always lands on a
/// supported format: the preferred one exactly when the surface supports
/// it, otherwise the set's first element.
pub proof fn lemma_chosen_format_supported(formats: Seq<SurfaceFormat>, preferred: SurfaceFormat)
    requires
        formats.len() > 0,
    ensures
        formats.contains(chosen_format(formats, preferred)),
        formats.contains(preferred) ==> chosen_format(formats, preferred) == preferred,
        !formats.contains(preferred) ==> chosen_format(formats, preferred) == formats[0],
{
    if !formats.contains(preferred) {
        assert(formats.contains(formats[0])) by {
            assert(formats[0] == formats[0]);
        }
    }
}

/// The present-mode negotiation never yields an unsupported mode: the
/// fallback is the one mode the driver's presentation contract guarantees,
/// so whenever the supported set carries FIFO — as the driver promises —
/// the chosen mode is in the set.
pub proof fn lemma_chosen_present_mode_supported(modes: Seq<u32>, preferred: u32)
    requires
        modes.contains(PRESENT_MODE_FIFO),
    ensures
        modes.contains(chosen_present_mode(modes, preferred)),
        modes.contains(preferred) ==> chosen_present_mode(modes, preferred) == preferred,
        !modes.contains(preferred) ==> chosen_present_mode(modes, preferred) == PRESENT_MODE_FIFO,
{
}

/// Under caller-defined sizing with ordered bounds, the negotiated extent
/// lies within the reported image-extent bounds, per dimension.
pub proof fn lemma_chosen_extent_bounded(caps: SurfaceCapabilities, width: u32, height: u32)
    requires
        caps.current_extent.width == u32::MAX,
        caps.min_image_extent.width <= caps.max_image_extent.width,
        caps.min_image_extent.height <= caps.max_image_extent.height,
    ensures
        caps.min_image_extent.width <= chosen_extent(caps, width, height).width
            <= caps.max_image_extent.width,
        caps.min_image_extent.height <= chosen_extent(caps, width, height).height
            <= caps.max_image_extent.height,
{
}

impl SwapchainSupportDetails {
    /// Assembles the snapshot from the three surface queries, each handed in
    /// as its plain result or as nothing when the query errored. Any failed
    /// query fails the whole snapshot with `SurfaceQueryFailed`.
    pub fn new(
        caps: Option<SurfaceCapabilities>,
        formats: Option<Vec<SurfaceFormat>>,
        present_modes: Option<Vec<u32>>,
    ) -> (r: Result<SwapchainSupportDetails, ContextError>)
        ensures
            match (caps, formats, present_modes) {
                (Some(c), Some(f), Some(p)) => r matches Ok(d) && d.caps == c && d.formats == f
                    && d.present_modes == p,
                _ => r matches Err(e) && e == ContextError::SurfaceQueryFailed,
            },
    {
        match (caps, formats, present_modes) {
            (Some(c), Some(f), Some(p)) => Ok(
                SwapchainSupportDetails { caps: c, formats: f, present_modes: p },
            ),
            _ => Err(ContextError::SurfaceQueryFailed),
        }
    }

    /// The format the chain will use: the preferred one if supported, else
    /// the first supported format. The surface always reports at least one
    /// format, which the fallback indexes.
    pub fn choose_surface_format(&self, preferred_format: SurfaceFormat) -> (r: SurfaceFormat)
        requires
            self.formats@.len() > 0,
        ensures
            r == chosen_format(self.formats@, preferred_format),
    {
        let n = self.formats.len();
        let mut i: usize = 0;
        while i < n
            invariant
                n == self.formats@.len(),
                i <= n,
                forall|j: int| 0 <= j < i ==> self.formats@[j] != preferred_format,
            decreases n - i,
        {
            if self.formats[i] == preferred_format {
                return preferred_format;
            }
            i = i + 1;
        }
        assert(!self.formats@.contains(preferred_format));
        self.formats[0]
    }

    /// The present mode the chain will use: the preferred one if supported,
    /// else FIFO.
    pub fn choose_present_mode(&self, preferred_mode: u32) -> (r: u32)
        ensures
            r == chosen_present_mode(self.present_modes@, preferred_mode),
    {
        let n = self.present_modes.len();
        let mut i: usize = 0;
        while i < n
            invariant
                n == self.present_modes@.len(),
                i <= n,
                forall|j: int| 0 <= j < i ==> self.present_modes@[j] != preferred_mode,
            decreases n - i,
        {
            if self.present_modes[i] == preferred_mode {
                return preferred_mode;
            }
            i = i + 1;
        }
        assert(!self.present_modes@.contains(preferred_mode));
        PRESENT_MODE_FIFO
    }

    /// The extent the chain will use, per the extent negotiation policy.
    pub fn choose_extent(&self, width: u32, height: u32) -> (r: Extent2D)
        ensures
            r == chosen_extent(self.caps, width, height),
    {
        if self.caps.current_extent.width != u32::MAX {
            return self.caps.current_extent;
        }
        let w = clamp_value(width, self.caps.min_image_extent.width, self.caps.max_image_extent.width);
        let h = clamp_value(height, self.caps.min_image_extent.height, self.caps.max_image_extent.height);
        Extent2D { width: w, height: h }
    }

    /// One image more than the reported minimum, so one frame can be
    /// recorded while another is presented. Deliberately not capped against
    /// `max_image_count`.
    pub fn optimal_min_image_count(&self) -> (r: u32)
        requires
            self.caps.min_image_count < u32::MAX,
        ensures
            r == self.caps.min_image_count + 1,
    {
        self.caps.min_image_count + 1
    }
}

/// `x` clamped into `[lo, hi]`, the executable twin of `clamp_u32`.
fn clamp_value(x: u32, lo: u32, hi: u32) -> (r: u32)
    ensures
        r == clamp_u32(x, lo, hi),
{
    if x < lo {
        lo
    } else if x > hi {
        hi
    } else {
        x
    }
}

/// Everything the swap-chain creation call takes: the negotiated choices
/// plus the fixed policy fields — single array layer, color-attachment
/// usage, exclusive sharing, the surface's current transform, opaque
/// composite alpha, clipping enabled. Exclusive sharing is a deliberate,
/// known limitation: it is only correct when the graphics and present
/// queue families resolve to the same index.
#[derive(Clone, Copy, Debug, PartialEq, Eq, Structural)]
pub struct SwapchainConfig {
    pub min_image_count: u32,
    pub format: SurfaceFormat,
    pub extent: Extent2D,
    pub present_mode: u32,
    pub image_array_layers: u32,
    pub image_usage: u32,
    pub image_sharing_mode: u32,
    pub pre_transform: u32,
    pub composite_alpha: u32,
    pub clipped: bool,
}

/// The configuration negotiation yields for a given snapshot and set of
/// preferences.
pub open spec fn negotiated_config(
    details: SwapchainSupportDetails,
    preferred_format: SurfaceFormat,
    preferred_present_mode: u32,
    width: u32,
    height: u32,
) -> SwapchainConfig {
    SwapchainConfig {
        min_image_count: (details.caps.min_image_count + 1) as u32,
        format: chosen_format(details.formats@, preferred_format),
        extent: chosen_extent(details.caps, width, height),
        present_mode: chosen_present_mode(details.present_modes@, preferred_present_mode),
        image_array_layers: 1,
        image_usage: IMAGE_USAGE_COLOR_ATTACHMENT,
        image_sharing_mode: SHARING_MODE_EXCLUSIVE,
        pre_transform: details.caps.current_transform,
        composite_alpha: COMPOSITE_ALPHA_OPAQUE,
        clipped: true,
    }
}

/// Negotiates the full swap-chain configuration against the snapshot.
pub fn negotiate(
    details: &SwapchainSupportDetails,
    preferred_format: SurfaceFormat,
    preferred_present_mode: u32,
    width: u32,
    height: u32,
) -> (r: SwapchainConfig)
    requires
        details.formats@.len() > 0,
        details.caps.min_image_count < u32::MAX,
    ensures
        r == negotiated_config(*details, preferred_format, preferred_present_mode, width, height),
{
    let surface_format = details.choose_surface_format(preferred_format);
    let present_mode = details.choose_present_mode(preferred_present_mode);
    let extent = details.choose_extent(width, height);
    let min_image_count = details.optimal_min_image_count();
    SwapchainConfig {
        min_image_count,
        format: surface_format,
        extent,
        present_mode,
        image_array_layers: 1,
        image_usage: IMAGE_USAGE_COLOR_ATTACHMENT,
        image_sharing_mode: SHARING_MODE_EXCLUSIVE,
        pre_transform: details.caps.current_transform,
        composite_alpha: COMPOSITE_ALPHA_OPAQUE,
        clipped: true,
    }
}

/// Everything one image-view creation call takes.
#[derive(Clone, Copy, Debug, PartialEq, Eq, Structural)]
pub struct ImageViewConfig {
    /// The chain image the view reads.
    pub image: u64,
    pub view_type: u32,
    /// The view's pixel format: always the negotiated surface format.
    pub format: u32,
    pub swizzle_r: u32,
    pub swizzle_g: u32,
    pub swizzle_b: u32,
    pub swizzle_a: u32,
    pub aspect_mask: u32,
    pub base_mip_level: u32,
    pub level_count: u32,
    pub base_array_layer: u32,
    pub layer_count: u32,
}

/// The one view configuration an image gets: 2D, identity component
/// mapping, and a single-mip single-layer color subresource range.
pub open spec fn image_view_config_for(image: u64, format: u32) -> ImageViewConfig {
    ImageViewConfig {
        image,
        view_type: IMAGE_VIEW_TYPE_2D,
        format,
        swizzle_r: COMPONENT_SWIZZLE_IDENTITY,
        swizzle_g: COMPONENT_SWIZZLE_IDENTITY,
        swizzle_b: COMPONENT_SWIZZLE_IDENTITY,
        swizzle_a: COMPONENT_SWIZZLE_IDENTITY,
        aspect_mask: IMAGE_ASPECT_COLOR,
        base_mip_level: 0,
        level_count: 1,
        base_array_layer: 0,
        layer_count: 1,
    }
}

/// One view configuration per returned chain image, index-aligned with the
/// image list and all carrying the negotiated format.
pub fn image_view_configs(images: &Vec<u64>, format: u32) -> (r: Vec<ImageViewConfig>)
    ensures
        r@.len() == images@.len(),
        forall|i: int| 0 <= i < images@.len() ==> r@[i] == image_view_config_for(
            images@[i],
            format,
        ),
{
    let mut configs: Vec<ImageViewConfig> = Vec::new();
    let n = images.len();
    let mut i: usize = 0;
    while i < n
        invariant
            n == images@.len(),
            i <= n,
            configs@.len() == i,
            forall|j: int| 0 <= j < i ==> configs@[j] == image_view_config_for(
                images@[j],
                format,
            ),
        decreases n - i,
    {
        let image = images[i];
        configs.push(
            ImageViewConfig {
                image,
                view_type: IMAGE_VIEW_TYPE_2D,
                format,
                swizzle_r: COMPONENT_SWIZZLE_IDENTITY,
                swizzle_g: COMPONENT_SWIZZLE_IDENTITY,
                swizzle_b: COMPONENT_SWIZZLE_IDENTITY,
                swizzle_a: COMPONENT_SWIZZLE_IDENTITY,
                aspect_mask: IMAGE_ASPECT_COLOR,
                base_mip_level: 0,
                level_count: 1,
                base_array_layer: 0,
                layer_count: 1,
            },
        );
        i = i + 1;
    }
    configs
}

/// The created chain: the driver handle, the negotiated extent, and the
/// index-aligned image and image-view handle lists, together with the
/// snapshot it was negotiated from. Images are driver-owned and die with
/// the chain; the views are owned here and must be destroyed first.
pub struct Swapchain {
    pub swapchain: u64,
    pub extent: Extent2D,
    pub images: Vec<u64>,
    pub image_views: Vec<u64>,
    pub details: SwapchainSupportDetails,
}

impl Swapchain {
    /// One view exists per image, index-aligned.
    pub open spec fn wf(self) -> bool {
        self.images@.len() == self.image_views@.len()
    }

    /// Assembles the chain from the negotiated configuration and the
    /// driver's answers: the chain handle (or nothing, when the driver
    /// rejected the configuration), the images the driver created, and the
    /// view handles made for them one to one.
    pub fn new(
        details: SwapchainSupportDetails,
        config: &SwapchainConfig,
        handle: Option<u64>,
        images: Vec<u64>,
        image_views: Vec<u64>,
    ) -> (r: Result<Swapchain, ContextError>)
        requires
            images@.len() == image_views@.len(),
        ensures
            match handle {
                Some(h) => r matches Ok(s) && s.swapchain == h && s.extent == config.extent
                    && s.images == images && s.image_views == image_views && s.details == details
                    && s.wf(),
                None => r matches Err(e) && e == ContextError::SwapChainCreationFailed,
            },
    {
        match handle {
            Some(h) => Ok(
                Swapchain {
                    swapchain: h,
                    extent: config.extent,
                    images,
                    image_views,
                    details,
                },
            ),
            None => Err(ContextError::SwapChainCreationFailed),
        }
    }
}

} // verus!
