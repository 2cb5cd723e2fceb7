use virtio_gpu::fence::{fence_ring, FenceState, VirtioGpuRing};
use virtio_gpu::protocol::VIRTIO_GPU_FLAG_INFO_RING_IDX;
use virtio_gpu::renderer::GpuFence;

const RING: VirtioGpuRing = VirtioGpuRing::ContextSpecific { ctx_id: 4, ring_idx: 1 };

fn fence(flags: u32, fence_id: u64, ctx_id: u32, ring_idx: u8) -> GpuFence {
    GpuFence { flags, fence_id, ctx_id, ring_idx }
}

#[test]
fn ring_follows_the_flag() {
    assert_eq!(fence_ring(fence(0, 1, 4, 1)), VirtioGpuRing::Global);
    assert_eq!(fence_ring(fence(1, 1, 4, 1)), VirtioGpuRing::Global);
    assert_eq!(fence_ring(fence(VIRTIO_GPU_FLAG_INFO_RING_IDX, 1, 4, 1)), RING);
    assert_eq!(fence_ring(fence(3, 1, 4, 1)), RING);
}

#[test]
fn ring_flag_is_that_of_the_renderer() {
    assert_eq!(VIRTIO_GPU_FLAG_INFO_RING_IDX, rutabaga_gfx::RUTABAGA_FLAG_INFO_RING_IDX);
}

#[test]
fn request_waits_until_its_fence() {
    let mut state = FenceState::new();
    assert!(!state.process_fence(VirtioGpuRing::Global, 7, 3, 24));
    assert_eq!(state.complete_fence(fence(0, 6, 0, 0)), vec![]);
    assert_eq!(state.complete_fence(fence(0, 7, 0, 0)), vec![(3, 24)]);
    assert_eq!(state.complete_fence(fence(0, 8, 0, 0)), vec![]);
}

#[test]
fn later_fence_gives_back_earlier_requests_in_order() {
    let mut state = FenceState::new();
    assert!(!state.process_fence(VirtioGpuRing::Global, 2, 20, 1));
    assert!(!state.process_fence(VirtioGpuRing::Global, 1, 10, 2));
    assert!(!state.process_fence(VirtioGpuRing::Global, 9, 90, 3));
    assert_eq!(state.complete_fence(fence(0, 5, 0, 0)), vec![(20, 1), (10, 2)]);
    assert_eq!(state.complete_fence(fence(0, 9, 0, 0)), vec![(90, 3)]);
}

#[test]
fn complete_fence_is_done_at_once() {
    let mut state = FenceState::default();
    assert!(state.process_fence(VirtioGpuRing::Global, 0, 1, 1));
    state.complete_fence(fence(0, 5, 0, 0));
    assert!(state.process_fence(VirtioGpuRing::Global, 5, 1, 1));
    assert!(state.process_fence(VirtioGpuRing::Global, 4, 1, 1));
    assert!(!state.process_fence(VirtioGpuRing::Global, 6, 1, 1));
}

#[test]
fn out_of_order_completion_does_not_set_the_ring_back() {
    let mut state = FenceState::new();
    state.complete_fence(fence(2, 11, 4, 1));
    state.complete_fence(fence(2, 10, 4, 1));
    assert!(state.process_fence(RING, 11, 1, 1));
}

#[test]
fn rings_are_independent() {
    let mut state = FenceState::new();
    let other = VirtioGpuRing::ContextSpecific { ctx_id: 4, ring_idx: 2 };
    let third = VirtioGpuRing::ContextSpecific { ctx_id: 5, ring_idx: 1 };
    assert!(!state.process_fence(VirtioGpuRing::Global, 1, 1, 1));
    assert!(!state.process_fence(RING, 1, 2, 2));
    assert!(!state.process_fence(other, 1, 3, 3));
    assert!(!state.process_fence(third, 1, 4, 4));
    assert_eq!(state.complete_fence(fence(2, 1, 4, 1)), vec![(2, 2)]);
    assert!(!state.process_fence(VirtioGpuRing::Global, 1, 5, 5));
    assert_eq!(state.complete_fence(fence(0, 1, 4, 1)), vec![(1, 1), (5, 5)]);
    assert_eq!(state.complete_fence(fence(2, 1, 5, 1)), vec![(4, 4)]);
    assert_eq!(state.complete_fence(fence(2, 1, 4, 2)), vec![(3, 3)]);
}

#[test]
fn extreme_rings_are_told_apart() {
    let mut state = FenceState::new();
    let first = VirtioGpuRing::ContextSpecific { ctx_id: 0, ring_idx: 0 };
    let last = VirtioGpuRing::ContextSpecific { ctx_id: u32::MAX, ring_idx: u8::MAX };
    state.complete_fence(fence(2, u64::MAX, u32::MAX, u8::MAX));
    assert!(state.process_fence(last, u64::MAX, 1, 1));
    assert!(!state.process_fence(first, 1, 1, 1));
    assert!(!state.process_fence(VirtioGpuRing::Global, 1, 1, 1));
}
