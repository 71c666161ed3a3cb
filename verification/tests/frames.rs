use rendercore::error::ContextError;
use rendercore::frame::Frame;
use rendercore::frame::FramePool;
use rendercore::FRAMES_IN_FLIGHT;

fn frame(n: u64) -> Frame {
    Frame::new(10 * n + 1, 10 * n + 2, 10 * n + 3, 10 * n + 4).unwrap()
}

#[test]
fn frame_new_keeps_distinct_handles() {
    let f = Frame::new(1, 2, 3, 4).unwrap();
    assert_eq!(f.swapchain_sem, 1);
    assert_eq!(f.rendering_sem, 2);
    assert_eq!(f.command_pool, 3);
    assert_eq!(f.main_command_buffer, 4);
}

#[test]
fn frame_new_refuses_coinciding_semaphores() {
    let r = Frame::new(5, 5, 3, 4);
    assert_eq!(r, Err(ContextError::FrameResourceAllocationFailed));
}

#[test]
fn frame_pool_create_holds_exactly_n_frames() {
    let count = FRAMES_IN_FLIGHT as usize;
    let frames: Vec<Frame> = (0..count as u64).map(frame).collect();
    let pool = FramePool::create(count, frames).unwrap();
    assert_eq!(pool.frames.len(), count);
    for f in &pool.frames {
        assert_ne!(f.swapchain_sem, f.rendering_sem);
    }
}

#[test]
fn frame_pool_create_refuses_wrong_count() {
    let frames = vec![frame(0)];
    let r = FramePool::create(2, frames);
    assert!(matches!(r, Err(ContextError::FrameResourceAllocationFailed)));
}

#[test]
fn frame_pool_create_refuses_degenerate_frame() {
    let bad = Frame { swapchain_sem: 9, rendering_sem: 9, command_pool: 1, main_command_buffer: 2 };
    let r = FramePool::create(2, vec![frame(0), bad]);
    assert!(matches!(r, Err(ContextError::FrameResourceAllocationFailed)));
}

#[test]
fn frame_index_cycles_through_the_ring() {
    let frames = vec![frame(0), frame(1)];
    let pool = FramePool::create(2, frames).unwrap();
    assert_eq!(pool.frame_index(0), 0);
    assert_eq!(pool.frame_index(1), 1);
    assert_eq!(pool.frame_index(2), 0);
    assert_eq!(pool.frame_index(7), 1);
}
