//! A flush: the resource goes to each scanout that shows it, one after the
//! other, and the first thing that fails ends it. On a Windows host the renderer
//! is asked at the end to flush the resource itself.

use crate::model::FrameStep;
use crate::protocol::{GpuResponse, VirtioGpuResult};
use crate::renderer::FlushReply;
use vstd::prelude::*;

verus! {

/// The scanouts to which the resource still has to go, of which the first is
/// under way, and whether the renderer comes after them.
#[derive(Debug)]
pub struct FlushState {
    scanouts: Vec<u32>,
    windows: bool,
}

/// What the display has done for the scanout that is under way, or the renderer
/// once there is none.
#[derive(Debug)]
pub enum FlushEvent {
    /// It gave a frame, into which the resource was read, or it gave none.
    Frame(Result<FrameStep, GpuResponse>),
    /// It presented the frame, or refused to.
    Presented(Result<(), GpuResponse>),
    /// The renderer was asked to flush the resource.
    Flushed(VirtioGpuResult),
}

/// What is to be done next.
#[derive(Debug)]
pub enum FlushAction {
    /// Get a frame of the scanout, and read the resource into it.
    FillFrame { scanout_id: u32 },
    /// Present the frame. The rows of a blob have to be copied before.
    PresentFrame { scanout_id: u32 },
    /// Have the renderer flush the resource.
    FlushRenderer,
    /// Answer the guest: the flush is over.
    Answer(VirtioGpuResult),
    /// The renderer has not read its own resource: there is no way on.
    GiveUp,
}

/// What comes after the last scanout.
pub open spec fn flush_end(windows: bool) -> FlushAction {
    if windows {
        FlushAction::FlushRenderer
    } else {
        FlushAction::Answer(Ok(GpuResponse::OkNoData))
    }
}

/// How a flush to `scanouts` starts, and goes on once those before are done.
pub open spec fn flush_start(scanouts: Seq<u32>, windows: bool) -> FlushAction {
    if scanouts.len() == 0 {
        flush_end(windows)
    } else {
        FlushAction::FillFrame { scanout_id: scanouts[0] }
    }
}

/// The scanouts that are left after `event`.
pub open spec fn flush_left(scanouts: Seq<u32>, event: FlushEvent) -> Seq<u32> {
    match event {
        FlushEvent::Presented(Ok(())) => scanouts.drop_first(),
        _ => scanouts,
    }
}

/// What is to be done after `event`.
pub open spec fn flush_action(scanouts: Seq<u32>, windows: bool, event: FlushEvent) -> FlushAction {
    match event {
        FlushEvent::Frame(Ok(step)) => match step {
            FrameStep::Filled | FrameStep::CopyBlob { .. } => FlushAction::PresentFrame {
                scanout_id: scanouts[0],
            },
            FrameStep::NotMapped => FlushAction::Answer(Err(GpuResponse::ErrUnspec)),
            FrameStep::NotRead => FlushAction::GiveUp,
        },
        FlushEvent::Presented(Ok(())) => flush_start(scanouts.drop_first(), windows),
        FlushEvent::Frame(Err(e)) => FlushAction::Answer(Err(e)),
        FlushEvent::Presented(Err(e)) => FlushAction::Answer(Err(e)),
        FlushEvent::Flushed(answer) => FlushAction::Answer(answer),
    }
}

/// What the guest is answered once the renderer has replied. That it has no way
/// to flush is no failure.
pub open spec fn flush_answered(reply: FlushReply) -> VirtioGpuResult {
    match reply {
        FlushReply::Flushed => Ok(GpuResponse::OkNoData),
        FlushReply::Unsupported => Ok(GpuResponse::OkNoData),
        FlushReply::Refused(e) => Err(GpuResponse::ErrRutabaga(e)),
    }
}

/// What the guest is answered once the renderer has replied.
pub fn flush_answer(reply: FlushReply) -> (result: VirtioGpuResult)
    ensures
        result == flush_answered(reply),
{
    match reply {
        FlushReply::Flushed => Ok(GpuResponse::OkNoData),
        FlushReply::Unsupported => Ok(GpuResponse::OkNoData),
        FlushReply::Refused(e) => Err(GpuResponse::ErrRutabaga(e)),
    }
}

impl FlushState {
    /// The scanouts that are left.
    pub closed spec fn scanouts(self) -> Seq<u32> {
        self.scanouts@
    }

    /// Whether the renderer comes after the scanouts.
    pub closed spec fn windows(self) -> bool {
        self.windows
    }

    /// A flush to `scanouts`, and what it starts with.
    pub fn start(scanouts: Vec<u32>, windows: bool) -> (result: (FlushState, FlushAction))
        ensures
            result.0.scanouts() == scanouts@,
            result.0.windows() == windows,
            result.1 == flush_start(scanouts@, windows),
    {
        let flush = FlushState { scanouts, windows };
        let action = flush.next();
        (flush, action)
    }

    /// What comes next once the scanouts before are done.
    fn next(&self) -> (result: FlushAction)
        ensures
            result == flush_start(self.scanouts(), self.windows()),
    {
        if self.scanouts.len() > 0 {
            FlushAction::FillFrame { scanout_id: self.scanouts[0] }
        } else if self.windows {
            FlushAction::FlushRenderer
        } else {
            FlushAction::Answer(Ok(GpuResponse::OkNoData))
        }
    }

    /// Takes in what has been done, and says what is next.
    pub fn step(&mut self, event: FlushEvent) -> (result: FlushAction)
        requires
            old(self).scanouts().len() > 0 || event is Flushed,
        ensures
            final(self).scanouts() == flush_left(old(self).scanouts(), event),
            final(self).windows() == old(self).windows(),
            result == flush_action(old(self).scanouts(), old(self).windows(), event),
    {
        match event {
            FlushEvent::Frame(Ok(step)) => match step {
                FrameStep::Filled => FlushAction::PresentFrame { scanout_id: self.scanouts[0] },
                FrameStep::CopyBlob { .. } => FlushAction::PresentFrame {
                    scanout_id: self.scanouts[0],
                },
                FrameStep::NotMapped => FlushAction::Answer(Err(GpuResponse::ErrUnspec)),
                FrameStep::NotRead => FlushAction::GiveUp,
            },
            FlushEvent::Frame(Err(e)) => FlushAction::Answer(Err(e)),
            FlushEvent::Presented(Ok(())) => {
                self.scanouts.remove(0);
                assert(self.scanouts@ =~= old(self).scanouts().drop_first());
                self.next()
            },
            FlushEvent::Presented(Err(e)) => FlushAction::Answer(Err(e)),
            FlushEvent::Flushed(answer) => FlushAction::Answer(answer),
        }
    }
}

/// The scanouts on which a flush presents frames, and what comes then, if the
/// display gives and presents every frame that it is asked for.
pub open spec fn flush_presents(scanouts: Seq<u32>, windows: bool, action: FlushAction) -> (
    Seq<u32>,
    FlushAction,
)
    decreases scanouts.len(),
{
    match action {
        FlushAction::FillFrame { scanout_id } => {
            let filled = FlushEvent::Frame(Ok(FrameStep::Filled));
            match flush_action(scanouts, windows, filled) {
                FlushAction::PresentFrame { scanout_id } => if scanouts.len() > 0 {
                    let presented = FlushEvent::Presented(Ok(()));
                    let rest = flush_presents(
                        flush_left(scanouts, presented),
                        windows,
                        flush_action(scanouts, windows, presented),
                    );
                    (seq![scanout_id] + rest.0, rest.1)
                } else {
                    (seq![], action)
                },
                _ => (seq![], action),
            }
        },
        _ => (seq![], action),
    }
}

/// A flush presents the resource on each of its scanouts, once and in order. It
/// is then answered with success, or on a Windows host with what the renderer
/// answers.
pub proof fn law_flush_presents_all(scanouts: Seq<u32>, windows: bool, answer: VirtioGpuResult)
    ensures
        flush_presents(scanouts, windows, flush_start(scanouts, windows)) == (
            scanouts,
            if windows {
                FlushAction::FlushRenderer
            } else {
                FlushAction::Answer(Ok(GpuResponse::OkNoData))
            },
        ),
        flush_action(Seq::empty(), windows, FlushEvent::Flushed(answer)) == FlushAction::Answer(
            answer,
        ),
    decreases scanouts.len(),
{
    if scanouts.len() > 0 {
        law_flush_presents_all(scanouts.drop_first(), windows, answer);
        assert(seq![scanouts[0]] + scanouts.drop_first() =~= scanouts);
    } else {
        assert(scanouts =~= seq![]);
    }
}

/// A frame that holds the resource, or will once the rows of a blob are copied, is
/// presented on the scanout that it was made for; one that the host could not
/// fill ends the flush.
pub proof fn law_filled_frames_are_presented(
    scanouts: Seq<u32>,
    windows: bool,
    ptr: u64,
    size: u64,
    width: u32,
    height: u32,
    stride: u32,
)
    requires
        scanouts.len() > 0,
    ensures
        flush_start(scanouts, windows) == (FlushAction::FillFrame { scanout_id: scanouts[0] }),
        flush_action(scanouts, windows, FlushEvent::Frame(Ok(FrameStep::Filled))) == (
        FlushAction::PresentFrame { scanout_id: scanouts[0] }),
        flush_action(
            scanouts,
            windows,
            FlushEvent::Frame(Ok(FrameStep::CopyBlob { ptr, size, width, height, stride })),
        ) == (FlushAction::PresentFrame { scanout_id: scanouts[0] }),
        flush_action(scanouts, windows, FlushEvent::Frame(Ok(FrameStep::NotMapped)))
            == FlushAction::Answer(Err(GpuResponse::ErrUnspec)),
        flush_action(scanouts, windows, FlushEvent::Frame(Ok(FrameStep::NotRead)))
            == FlushAction::GiveUp,
{
}

/// The first refusal of the display ends the flush, and is what the guest is
/// answered.
pub proof fn law_refusal_ends_the_flush(scanouts: Seq<u32>, windows: bool, e: GpuResponse)
    ensures
        flush_action(scanouts, windows, FlushEvent::Frame(Err(e))) == FlushAction::Answer(Err(e)),
        flush_action(scanouts, windows, FlushEvent::Presented(Err(e))) == FlushAction::Answer(
            Err(e),
        ),
{
}

/// A scanout is done once its frame is presented, and not before.
pub proof fn law_presenting_makes_progress(scanouts: Seq<u32>, step: FrameStep, e: GpuResponse)
    requires
        scanouts.len() > 0,
    ensures
        seq![scanouts[0]] + flush_left(scanouts, FlushEvent::Presented(Ok(()))) == scanouts,
        flush_left(scanouts, FlushEvent::Frame(Ok(step))) == scanouts,
        flush_left(scanouts, FlushEvent::Frame(Err(e))) == scanouts,
        flush_left(scanouts, FlushEvent::Presented(Err(e))) == scanouts,
{
    assert(seq![scanouts[0]] + scanouts.drop_first() =~= scanouts);
}

/// Only a refusal of the renderer is a failure, and the guest gets its error.
pub proof fn law_flush_fails_with_the_renderer(reply: FlushReply)
    ensures
        match flush_answered(reply) {
            Ok(response) => response == GpuResponse::OkNoData && !(reply is Refused),
            Err(response) => reply is Refused && response == GpuResponse::ErrRutabaga(
                reply->Refused_0,
            ),
        },
{
}

} // verus!
