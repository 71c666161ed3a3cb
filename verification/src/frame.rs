//! The fixed pool of per-frame synchronization and command-recording
//! resources.
//!
//! Each slot holds a command pool owning exactly one primary command
//! buffer, an image-acquired semaphore and a rendering-finished semaphore.
//! All slots are created eagerly at startup and none is reallocated during
//! steady-state operation: the pool is a fixed ring, cycled through by
//! index.

use vstd::prelude::*;

use crate::error::ContextError;

verus! {

/// Command-pool flag bit: command buffers from the pool may be reset
/// individually. Follows the driver's flag numbering.
pub const COMMAND_POOL_RESET_COMMAND_BUFFER: u32 = 2;

/// Command-buffer level: a primary buffer, submitted directly to a queue.
pub const COMMAND_BUFFER_LEVEL_PRIMARY: u32 = 0;

/// One frame-in-flight slot: two semaphores for pacing against the driver,
/// and a command pool with its single primary command buffer.
#[derive(Clone, Copy, Debug, PartialEq, Eq, Structural)]
pub struct Frame {
    /// Signaled when a chain image has been acquired for this frame.
    pub swapchain_sem: u64,
    /// Signaled when rendering into the acquired image has finished.
    pub rendering_sem: u64,
    /// Command pool this frame records through.
    pub command_pool: u64,
    /// The pool's one primary command buffer.
    pub main_command_buffer: u64,
}

impl Frame {
    /// The two pacing semaphores are distinct driver objects.
    pub open spec fn wf(self) -> bool {
        self.swapchain_sem != self.rendering_sem
    }

    /// Assembles one frame slot from the handles the driver created for it.
    /// The two semaphores must be distinct objects; a frame whose pacing
    /// handles coincide could never pace anything, so it is refused as a
    /// failed allocation.
    pub fn new(
        swapchain_sem: u64,
        rendering_sem: u64,
        command_pool: u64,
        main_command_buffer: u64,
    ) -> (r: Result<Frame, ContextError>)
        ensures
            swapchain_sem != rendering_sem ==> (r matches Ok(f) && f.swapchain_sem
                == swapchain_sem && f.rendering_sem == rendering_sem && f.command_pool
                == command_pool && f.main_command_buffer == main_command_buffer && f.wf()),
            swapchain_sem == rendering_sem ==> (r matches Err(e) && e
                == ContextError::FrameResourceAllocationFailed),
    {
        if swapchain_sem == rendering_sem {
            Err(ContextError::FrameResourceAllocationFailed)
        } else {
            Ok(Frame { swapchain_sem, rendering_sem, command_pool, main_command_buffer })
        }
    }
}

/// The fixed ring of frame slots.
pub struct FramePool {
    pub frames: Vec<Frame>,
}

impl FramePool {
    /// Every slot's pacing semaphores are distinct.
    pub open spec fn wf(self) -> bool {
        forall|i: int| 0 <= i < self.frames@.len() ==> self.frames@[i].wf()
    }

    /// Builds the pool from the eagerly created slots. Succeeds exactly
    /// when the requested number of slots was delivered and every slot is
    /// well formed; anything else is a failed allocation.
    pub fn create(count: usize, frames: Vec<Frame>) -> (r: Result<FramePool, ContextError>)
        ensures
            frames@.len() == count && (forall|i: int|
                0 <= i < frames@.len() ==> frames@[i].wf()) ==> (r matches Ok(p) && p.frames
                == frames && p.frames@.len() == count && p.wf()),
            !(frames@.len() == count && (forall|i: int|
                0 <= i < frames@.len() ==> frames@[i].wf())) ==> (r matches Err(e) && e
                == ContextError::FrameResourceAllocationFailed),
    {
        if frames.len() != count {
            return Err(ContextError::FrameResourceAllocationFailed);
        }
        let n = frames.len();
        let mut i: usize = 0;
        while i < n
            invariant
                n == frames@.len(),
                i <= n,
                forall|j: int| 0 <= j < i ==> frames@[j].wf(),
            decreases n - i,
        {
            if frames[i].swapchain_sem == frames[i].rendering_sem {
                return Err(ContextError::FrameResourceAllocationFailed);
            }
            i = i + 1;
        }
        Ok(FramePool { frames })
    }

    /// The slot a frame counter lands on: the ring is indexed by the
    /// counter modulo the pool size.
    pub fn frame_index(&self, frame_counter: u64) -> (r: usize)
        requires
            self.frames@.len() > 0,
        ensures
            r == frame_counter as int % self.frames@.len() as int,
    {
        (frame_counter % (self.frames.len() as u64)) as usize
    }
}

} // verus!
