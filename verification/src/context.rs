//! The rendering context and its teardown sequencer.
//!
//! The context owns every bootstrap product: the instance, the optional
//! diagnostics channel, the selected device, the logical device, the
//! surface, the swap chain and the frame pool. No dependent object may
//! outlive it, and teardown must destroy each object in strict reverse
//! dependency order, since each destroy call requires a still-valid parent.
//! The sequencer computes the full ordered destroy list as data, so the
//! order is stated and checked in one place.

use vstd::prelude::*;

use crate::FRAMES_IN_FLIGHT;
use crate::WINDOW_HEIGHT;
use crate::WINDOW_WIDTH;
use crate::error::ContextError;
use crate::frame::Frame;
use crate::frame::FramePool;
use crate::swapchain::COLOR_SPACE_SRGB_NONLINEAR;
use crate::swapchain::FORMAT_B8G8R8_UNORM;
use crate::swapchain::PRESENT_MODE_MAILBOX;
use crate::swapchain::Swapchain;
use crate::swapchain::SurfaceFormat;

verus! {

/// The recognized configuration of a context.
#[derive(Clone, Copy, Debug)]
pub struct ContextOptions {
    /// Whether validation layers and the diagnostics channel are wanted.
    pub validation_enabled: bool,
    /// Size of the frame resource pool; at least one.
    pub frames_in_flight: u32,
    /// Surface format to ask the negotiation for.
    pub preferred_format: SurfaceFormat,
    /// Present mode to ask the negotiation for.
    pub preferred_present_mode: u32,
    /// Window width in pixels.
    pub window_width: u32,
    /// Window height in pixels.
    pub window_height: u32,
}

impl ContextOptions {
    /// At least one frame must be in flight.
    pub open spec fn wf(self) -> bool {
        self.frames_in_flight >= 1
    }
}

impl Default for ContextOptions {
    /// The stock configuration: no validation, two frames in flight, a
    /// blue-first 8-bit format in non-linear sRGB, mailbox presentation,
    /// and the default window size.
    fn default() -> (r: ContextOptions)
        ensures
            r.validation_enabled == false,
            r.frames_in_flight == FRAMES_IN_FLIGHT,
            r.preferred_format.format == FORMAT_B8G8R8_UNORM,
            r.preferred_format.color_space == COLOR_SPACE_SRGB_NONLINEAR,
            r.preferred_present_mode == PRESENT_MODE_MAILBOX,
            r.window_width == WINDOW_WIDTH,
            r.window_height == WINDOW_HEIGHT,
            r.wf(),
    {
        ContextOptions {
            validation_enabled: false,
            frames_in_flight: FRAMES_IN_FLIGHT,
            preferred_format: SurfaceFormat {
                format: FORMAT_B8G8R8_UNORM,
                color_space: COLOR_SPACE_SRGB_NONLINEAR,
            },
            preferred_present_mode: PRESENT_MODE_MAILBOX,
            window_width: WINDOW_WIDTH,
            window_height: WINDOW_HEIGHT,
        }
    }
}

/// Maps the platform's answer to surface creation onto the error taxonomy:
/// any platform failure is `SurfaceCreationFailed`.
pub fn surface_from_driver(outcome: Option<u64>) -> (r: Result<u64, ContextError>)
    ensures
        match outcome {
            Some(h) => r == Ok::<u64, ContextError>(h),
            None => r == Err::<u64, ContextError>(ContextError::SurfaceCreationFailed),
        },
{
    match outcome {
        Some(h) => Ok(h),
        None => Err(ContextError::SurfaceCreationFailed),
    }
}

/// The assembled rendering context: exactly one per running application,
/// created once at startup and torn down once at shutdown.
pub struct App {
    /// The top-level driver connection.
    pub instance: u64,
    /// The diagnostics channel, when validation was enabled.
    pub diagnostics: Option<u64>,
    /// The selected physical device.
    pub physical_device: u64,
    /// The logical device created from it.
    pub device: u64,
    /// The drawable surface bound to the window.
    pub surface: u64,
    /// The negotiated swap chain.
    pub swapchain: Swapchain,
    /// The fixed ring of per-frame resources.
    pub frames: FramePool,
}

impl App {
    /// The chain's views align with its images and every frame's pacing
    /// semaphores are distinct.
    pub open spec fn wf(self) -> bool {
        self.swapchain.wf() && self.frames.wf()
    }

    /// Assembles the context from the bootstrap products, in the order the
    /// bootstrap created them.
    pub fn new(
        instance: u64,
        diagnostics: Option<u64>,
        physical_device: u64,
        device: u64,
        surface: u64,
        swapchain: Swapchain,
        frames: FramePool,
    ) -> (r: App)
        ensures
            r.instance == instance,
            r.diagnostics == diagnostics,
            r.physical_device == physical_device,
            r.device == device,
            r.surface == surface,
            r.swapchain == swapchain,
            r.frames == frames,
    {
        App { instance, diagnostics, physical_device, device, surface, swapchain, frames }
    }
}

/// One destroy call of the teardown sequence, with the handle it takes.
#[derive(Clone, Copy, Debug, PartialEq, Eq, Structural)]
pub enum TeardownAction {
    DestroyImageView(u64),
    DestroySwapchain(u64),
    DestroySemaphore(u64),
    DestroyCommandPool(u64),
    DestroyDevice(u64),
    DestroySurface(u64),
    DetachDiagnostics(u64),
    DestroyInstance(u64),
}

/// One destroy per image view, in the order the views were created.
pub open spec fn image_view_teardown(views: Seq<u64>) -> Seq<TeardownAction> {
    Seq::new(views.len(), |i: int| TeardownAction::DestroyImageView(views[i]))
}

/// One frame's releases: both pacing semaphores, then its command pool,
/// which frees the pool's command buffer with it.
pub open spec fn frame_teardown(f: Frame) -> Seq<TeardownAction> {
    seq![
        TeardownAction::DestroySemaphore(f.swapchain_sem),
        TeardownAction::DestroySemaphore(f.rendering_sem),
        TeardownAction::DestroyCommandPool(f.command_pool),
    ]
}

/// The releases of every frame slot, in slot order.
pub open spec fn frames_teardown(frames: Seq<Frame>) -> Seq<TeardownAction>
    decreases frames.len(),
{
    if frames.len() == 0 {
        Seq::empty()
    } else {
        frames_teardown(frames.drop_last()) + frame_teardown(frames.last())
    }
}

/// The diagnostics channel's release, or nothing when none was attached:
/// a disabled channel makes every corresponding teardown step a no-op.
pub open spec fn diagnostics_teardown(channel: Option<u64>) -> Seq<TeardownAction> {
    match channel {
        Some(h) => seq![TeardownAction::DetachDiagnostics(h)],
        None => Seq::empty(),
    }
}

/// The whole teardown sequence: image views, then the swap chain, then
/// the per-frame semaphores and command pools, then the logical device,
/// the surface, the diagnostics channel if attached, and the instance
/// last. No step is skipped.
pub open spec fn teardown_plan(app: App) -> Seq<TeardownAction> {
    image_view_teardown(app.swapchain.image_views@) + seq![
        TeardownAction::DestroySwapchain(app.swapchain.swapchain),
    ] + frames_teardown(app.frames.frames@) + seq![TeardownAction::DestroyDevice(app.device)]
        + seq![TeardownAction::DestroySurface(app.surface)] + diagnostics_teardown(app.diagnostics)
        + seq![TeardownAction::DestroyInstance(app.instance)]
}

/// Every frame slot contributes exactly its three releases to the plan.
pub proof fn lemma_frames_teardown_len(frames: Seq<Frame>)
    ensures
        frames_teardown(frames).len() == 3 * frames.len(),
    decreases frames.len(),
{
    if frames.len() > 0 {
        lemma_frames_teardown_len(frames.drop_last());
    }
}

/// Teardown is total: no step is skipped. The plan holds one destroy per
/// image view, one for the chain, three per frame slot, one each for the
/// logical device, the surface and the instance, and one detach exactly
/// when a diagnostics channel is attached.
pub proof fn lemma_teardown_total(app: App)
    ensures
        teardown_plan(app).len() == app.swapchain.image_views@.len() + 1 + 3
            * app.frames.frames@.len() + 3 + (if app.diagnostics is Some {
            1int
        } else {
            0int
        }),
{
    lemma_frames_teardown_len(app.frames.frames@);
}

/// Computes the full teardown sequence for a context, exactly as
/// `teardown_plan` states it. The boundary layer executes the actions in
/// the returned order and must not reorder or skip any.
pub fn teardown_actions(app: &App) -> (r: Vec<TeardownAction>)
    ensures
        r@ == teardown_plan(*app),
{
    let mut actions: Vec<TeardownAction> = Vec::new();
    let views = &app.swapchain.image_views;
    let nv = views.len();
    let mut i: usize = 0;
    while i < nv
        invariant
            nv == views@.len(),
            views == app.swapchain.image_views,
            i <= nv,
            actions@ == image_view_teardown(views@.take(i as int)),
        decreases nv - i,
    {
        actions.push(TeardownAction::DestroyImageView(views[i]));
        proof {
            assert(actions@ =~= image_view_teardown(views@.take(i as int + 1)));
        }
        i = i + 1;
    }
    proof {
        assert(views@.take(nv as int) =~= views@);
    }
    actions.push(TeardownAction::DestroySwapchain(app.swapchain.swapchain));
    let ghost head = image_view_teardown(app.swapchain.image_views@) + seq![
        TeardownAction::DestroySwapchain(app.swapchain.swapchain),
    ];
    proof {
        assert(actions@ =~= head);
    }
    let slots = &app.frames.frames;
    let nf = slots.len();
    let mut k: usize = 0;
    while k < nf
        invariant
            nf == slots@.len(),
            slots == app.frames.frames,
            k <= nf,
            actions@ == head + frames_teardown(slots@.take(k as int)),
        decreases nf - k,
    {
        let f = slots[k];
        actions.push(TeardownAction::DestroySemaphore(f.swapchain_sem));
        actions.push(TeardownAction::DestroySemaphore(f.rendering_sem));
        actions.push(TeardownAction::DestroyCommandPool(f.command_pool));
        proof {
            assert(slots@.take(k as int + 1).drop_last() =~= slots@.take(k as int));
            assert(slots@.take(k as int + 1).last() == slots@[k as int]);
            assert(frames_teardown(slots@.take(k as int + 1)) == frames_teardown(
                slots@.take(k as int),
            ) + frame_teardown(slots@[k as int]));
            assert(actions@ =~= head + frames_teardown(slots@.take(k as int + 1)));
        }
        k = k + 1;
    }
    proof {
        assert(slots@.take(nf as int) =~= slots@);
    }
    actions.push(TeardownAction::DestroyDevice(app.device));
    actions.push(TeardownAction::DestroySurface(app.surface));
    let ghost before_diagnostics = actions@;
    match app.diagnostics {
        Some(h) => {
            actions.push(TeardownAction::DetachDiagnostics(h));
            proof {
                assert(actions@ =~= before_diagnostics + diagnostics_teardown(app.diagnostics));
            }
        },
        None => {
            proof {
                assert(actions@ =~= before_diagnostics + diagnostics_teardown(app.diagnostics));
            }
        },
    }
    actions.push(TeardownAction::DestroyInstance(app.instance));
    proof {
        assert(actions@ =~= teardown_plan(*app));
    }
    actions
}

} // verus!
