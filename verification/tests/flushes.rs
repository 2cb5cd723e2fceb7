use rutabaga_gfx::RutabagaError;
use virtio_gpu::flush::{flush_answer, FlushAction, FlushEvent, FlushState};
use virtio_gpu::model::FrameStep;
use virtio_gpu::protocol::GpuResponse;
use virtio_gpu::renderer::FlushReply;

const BLOB: FrameStep = FrameStep::CopyBlob { ptr: 64, size: 16, width: 2, height: 2, stride: 8 };

#[test]
fn nothing_to_flush_is_done() {
    let (_, action) = FlushState::start(vec![], false);
    assert!(matches!(action, FlushAction::Answer(Ok(GpuResponse::OkNoData))));
}

#[test]
fn scanouts_are_served_in_order() {
    let (mut flush, action) = FlushState::start(vec![3, 7], false);
    assert!(matches!(action, FlushAction::FillFrame { scanout_id: 3 }));
    let action = flush.step(FlushEvent::Frame(Ok(FrameStep::Filled)));
    assert!(matches!(action, FlushAction::PresentFrame { scanout_id: 3 }));
    let action = flush.step(FlushEvent::Presented(Ok(())));
    assert!(matches!(action, FlushAction::FillFrame { scanout_id: 7 }));
    let action = flush.step(FlushEvent::Frame(Ok(BLOB)));
    assert!(matches!(action, FlushAction::PresentFrame { scanout_id: 7 }));
    let action = flush.step(FlushEvent::Presented(Ok(())));
    assert!(matches!(action, FlushAction::Answer(Ok(GpuResponse::OkNoData))));
}

#[test]
fn first_failure_ends_the_flush() {
    let (mut flush, _) = FlushState::start(vec![3, 7], false);
    let event = FlushEvent::Frame(Err(GpuResponse::ErrInvalidScanoutId));
    assert!(matches!(
        flush.step(event),
        FlushAction::Answer(Err(GpuResponse::ErrInvalidScanoutId))
    ));
    let (mut flush, _) = FlushState::start(vec![3, 7], false);
    flush.step(FlushEvent::Frame(Ok(FrameStep::Filled)));
    let event = FlushEvent::Presented(Err(GpuResponse::ErrInvalidScanoutId));
    assert!(matches!(
        flush.step(event),
        FlushAction::Answer(Err(GpuResponse::ErrInvalidScanoutId))
    ));
}

#[test]
fn pixels_that_cannot_be_seen_end_the_flush() {
    let (mut flush, _) = FlushState::start(vec![3], false);
    assert!(matches!(
        flush.step(FlushEvent::Frame(Ok(FrameStep::NotMapped))),
        FlushAction::Answer(Err(GpuResponse::ErrUnspec))
    ));
    let (mut flush, _) = FlushState::start(vec![3], false);
    assert!(matches!(
        flush.step(FlushEvent::Frame(Ok(FrameStep::NotRead))),
        FlushAction::GiveUp
    ));
}

#[test]
fn renderer_comes_last_on_windows() {
    let (mut flush, action) = FlushState::start(vec![3], true);
    assert!(matches!(action, FlushAction::FillFrame { scanout_id: 3 }));
    flush.step(FlushEvent::Frame(Ok(FrameStep::Filled)));
    let action = flush.step(FlushEvent::Presented(Ok(())));
    assert!(matches!(action, FlushAction::FlushRenderer));
    let action = flush.step(FlushEvent::Flushed(Err(GpuResponse::ErrUnspec)));
    assert!(matches!(action, FlushAction::Answer(Err(GpuResponse::ErrUnspec))));
    let (_, action) = FlushState::start(vec![], true);
    assert!(matches!(action, FlushAction::FlushRenderer));
}

#[test]
fn reply_of_the_renderer_is_the_answer() {
    assert!(matches!(flush_answer(FlushReply::Flushed), Ok(GpuResponse::OkNoData)));
    assert!(matches!(flush_answer(FlushReply::Unsupported), Ok(GpuResponse::OkNoData)));
    assert!(matches!(
        flush_answer(FlushReply::Refused(RutabagaError::InvalidResourceId)),
        Err(GpuResponse::ErrRutabaga(RutabagaError::InvalidResourceId))
    ));
}
