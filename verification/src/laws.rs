//! What holds of the coordinator over whole runs.
//!
//! A run is a sequence of events, taken one after the other from some stage.
//! The worker of the first part owns the handles; the laws of that part say
//! that the coordinator's bookkeeping agrees with what the worker holds. The
//! laws of the second part speak of what the coordinator hands out.

use vstd::prelude::*;
use crate::connection::{AnswerView, RequestView, ResponseView};
use crate::coordinator::{
    format_change, resume, transition, CallView, EventView, Handles, OutputView, ReactionView, Stage,
    IDLE_WAIT_MS, STREAMING_WAIT_MS,
};
use crate::models::{CoordinatorError, Format, FrameView};

verus! {

/// The stage after a run.
pub open spec fn run(stage: Stage, events: Seq<EventView>) -> Stage
    decreases events.len(),
{
    if events.len() == 0 {
        stage
    } else {
        transition(run(stage, events.drop_last()), events.last()).0
    }
}

/// The reaction to the last event of a run that is not empty.
pub open spec fn last_reaction(stage: Stage, events: Seq<EventView>) -> ReactionView
    recommends
        events.len() > 0,
{
    transition(run(stage, events.drop_last()), events.last()).1
}

/// The frames handed to the frame sink during a run, in the order in which
/// they were handed out.
pub open spec fn delivered(stage: Stage, events: Seq<EventView>) -> Seq<FrameView>
    decreases events.len(),
{
    if events.len() == 0 {
        Seq::empty()
    } else {
        let before = delivered(stage, events.drop_last());
        match last_reaction(stage, events).output {
            Some(OutputView::Deliver(frame)) => before.push(frame),
            _ => before,
        }
    }
}

/// The worker's side of the protocol: the coordinator's stage, the call the
/// worker was told to make, and the handles the worker really holds.
pub struct Worker {
    pub stage: Stage,
    pub pending: CallView,
    pub held: Handles,
}

/// What the worker holds once the pending call has had the given outcome:
/// a device that opened, or a stream that opened, is held from then on.
pub open spec fn acquired(held: Handles, pending: CallView, event: EventView) -> Handles {
    match (pending, event) {
        (CallView::OpenDevice(_), EventView::DeviceOpened(true)) => Handles::Device,
        (CallView::OpenStream, EventView::StreamOpened(true)) => Handles::StreamAndDevice,
        _ => held,
    }
}

/// What the worker holds once it has closed what the reaction names.
pub open spec fn released(held: Handles, release: Handles) -> Handles {
    if release == Handles::Nothing {
        held
    } else {
        Handles::Nothing
    }
}

/// The handles that a call needs open, and the only ones it may find open.
pub open spec fn call_needs(call: CallView) -> Set<Handles> {
    match call {
        CallView::Receive { .. } => set![Handles::Nothing, Handles::StreamAndDevice],
        CallView::OpenDevice(_) => set![Handles::Nothing],
        CallView::ReadFormat | CallView::SetFormat(_) | CallView::OpenStream => set![
            Handles::Device
        ],
        CallView::Capture | CallView::Ask(_) => set![Handles::StreamAndDevice],
        CallView::Halt => set![Handles::Nothing],
    }
}

/// The worker after it has reported the outcome of its pending call and
/// carried out the coordinator's reaction.
pub open spec fn worker_step(worker: Worker, event: EventView) -> Worker {
    let (stage, reaction) = transition(worker.stage, event);
    Worker {
        stage,
        pending: reaction.next,
        held: released(acquired(worker.held, worker.pending, event), reaction.release),
    }
}

/// Whether the reaction asks of the worker only what it can do: it closes
/// nothing or exactly what is open, hands out a frame only while the stream
/// is open, and names a next call that fits what is open after that. In
/// particular no device is opened while one is open, and none is asked
/// anything unless it is open.
pub open spec fn feasible(worker: Worker, event: EventView) -> bool {
    let reaction = transition(worker.stage, event).1;
    let open = acquired(worker.held, worker.pending, event);
    &&& reaction.release == Handles::Nothing || reaction.release == open
    &&& reaction.output matches Some(OutputView::Deliver(_)) ==> open == Handles::StreamAndDevice
    &&& call_needs(reaction.next).contains(released(open, reaction.release))
}

/// Whether coordinator and worker agree: the worker holds what the stage
/// says is open, and its pending call is one that the stage awaits.
pub open spec fn in_step(worker: Worker) -> bool {
    &&& worker.held == worker.stage.handles()
    &&& match worker.stage {
        Stage::Idle => worker.pending is Receive || worker.pending is Halt,
        Stage::Opening => worker.pending is OpenDevice,
        Stage::ReadingFormat => worker.pending is ReadFormat,
        Stage::Negotiating => worker.pending is SetFormat,
        Stage::OpeningStream(_) => worker.pending is OpenStream,
        Stage::Streaming(_) => worker.pending is Capture || worker.pending is Receive
            || worker.pending is Ask,
    }
}

/// The worker at the start: nothing is open and it waits for a request.
pub open spec fn fresh_worker() -> Worker {
    Worker { stage: Stage::Idle, pending: resume(Stage::Idle), held: Handles::Nothing }
}

/// The worker after a run.
pub open spec fn worker_run(worker: Worker, events: Seq<EventView>) -> Worker
    decreases events.len(),
{
    if events.len() == 0 {
        worker
    } else {
        worker_step(worker_run(worker, events.drop_last()), events.last())
    }
}

/// One step keeps coordinator and worker in agreement, and asks of the
/// worker only what it can do, whatever the event.
pub proof fn step_keeps_agreement(worker: Worker, event: EventView)
    requires
        in_step(worker),
    ensures
        in_step(worker_step(worker, event)),
        feasible(worker, event),
{
}

/// After every run from the start the worker holds exactly what the
/// coordinator's stage says: nothing when idle, a device and a stream when
/// streaming. Every reaction on the way could be carried out, so no device
/// was opened while another was open and none was closed twice.
pub proof fn run_keeps_agreement(events: Seq<EventView>)
    ensures
        in_step(worker_run(fresh_worker(), events)),
        worker_run(fresh_worker(), events).stage == run(Stage::Idle, events),
        forall|n: int|
            0 <= n < events.len() ==> feasible(
                #[trigger] worker_run(fresh_worker(), events.take(n)),
                events[n],
            ),
    decreases events.len(),
{
    if events.len() > 0 {
        let front = events.drop_last();
        run_keeps_agreement(front);
        let before = worker_run(fresh_worker(), front);
        step_keeps_agreement(before, events.last());
        assert forall|n: int| 0 <= n < events.len() implies feasible(
            #[trigger] worker_run(fresh_worker(), events.take(n)),
            events[n],
        ) by {
            if n < front.len() {
                assert(events.take(n) == front.take(n));
                assert(events[n] == front[n]);
            } else {
                assert(events.take(n) == front);
            }
        }
    }
}

/// Between requests the coordinator is in exactly one of its two settled
/// stages, and a device is open if and only if it is streaming: whenever,
/// after a run from the start, the worker is about to wait for a request, to
/// capture, or to halt, the stage is `Idle` with nothing open or `Streaming`
/// with device and stream open.
pub proof fn idle_or_streaming_between_requests(events: Seq<EventView>)
    ensures
        ({
            let worker = worker_run(fresh_worker(), events);
            worker.pending is Receive || worker.pending is Capture || worker.pending is Halt ==> {
                &&& worker.stage.settled()
                &&& worker.stage is Idle <==> worker.held == Handles::Nothing
                &&& worker.stage is Streaming <==> worker.held == Handles::StreamAndDevice
            }
        }),
{
    run_keeps_agreement(events);
}

/// Once a request has been served and the outcomes of the calls it led to
/// have come in, the coordinator is idle or streaming again: a request
/// takes at most four calls.
pub proof fn request_settles(
    stage: Stage,
    request: RequestView,
    first: EventView,
    second: EventView,
    third: EventView,
    fourth: EventView,
)
    requires
        stage.settled(),
    ensures
        ({
            let served = seq![EventView::Request(request)];
            ||| run(stage, served).settled()
            ||| run(stage, served.push(first)).settled()
            ||| run(stage, served.push(first).push(second)).settled()
            ||| run(stage, served.push(first).push(second).push(third)).settled()
            ||| run(stage, served.push(first).push(second).push(third).push(fourth)).settled()
        }),
{
    let e0 = seq![EventView::Request(request)];
    let e1 = e0.push(first);
    let e2 = e1.push(second);
    let e3 = e2.push(third);
    let e4 = e3.push(fourth);
    assert(e0.drop_last() == Seq::<EventView>::empty());
    assert(e1.drop_last() == e0);
    assert(e2.drop_last() == e1);
    assert(e3.drop_last() == e2);
    assert(e4.drop_last() == e3);
    assert(run(stage, Seq::<EventView>::empty()) == stage);
    assert(run(stage, e0) == transition(stage, e0.last()).0);
    assert(run(stage, e1) == transition(run(stage, e0), first).0);
    assert(run(stage, e2) == transition(run(stage, e1), second).0);
    assert(run(stage, e3) == transition(run(stage, e2), third).0);
    assert(run(stage, e4) == transition(run(stage, e3), fourth).0);
}

/// The reaction of a coordinator that stops, or stays stopped, without a
/// complaint: it has the given handles closed, tells the client that the
/// stream is stopped, and waits for the next request.
pub open spec fn stopped(release: Handles) -> ReactionView {
    ReactionView {
        release,
        output: Some(OutputView::Reply(ResponseView::StopStream(Ok(())))),
        next: CallView::Receive { timeout_ms: IDLE_WAIT_MS },
    }
}

/// Stopping twice is stopping once. From every stage two requests to stop
/// in a row end in `Idle`, and the second closes nothing and reports no
/// error. From the two settled stages the first reports no error either,
/// and closes exactly what was open.
pub proof fn stop_is_idempotent(stage: Stage)
    ensures
        ({
            let stop = EventView::Request(RequestView::StopStream);
            let (once, first) = transition(stage, stop);
            let (twice, second) = transition(once, stop);
            &&& once == Stage::Idle
            &&& twice == Stage::Idle
            &&& second == stopped(Handles::Nothing)
            &&& stage.settled() ==> first == stopped(stage.handles())
            &&& first.release == stage.handles()
        }),
{
}

/// A frame leaves the coordinator only in the step in which it was
/// captured, only while streaming, unchanged, and only if it is complete;
/// and every complete frame captured while streaming leaves in that step.
/// So frames are neither held back, nor repeated, nor reordered.
pub proof fn delivers_what_was_captured(stage: Stage, event: EventView, frame: FrameView)
    ensures
        transition(stage, event).1.output == Some(OutputView::Deliver(frame)) <==> {
            &&& stage is Streaming
            &&& event == EventView::Captured(Some(frame))
            &&& frame.complete()
        },
{
}

/// A run in which no frame is captured delivers none, wherever it starts.
pub proof fn no_capture_no_frame(stage: Stage, events: Seq<EventView>)
    requires
        forall|n: int| 0 <= n < events.len() ==> !(#[trigger] events[n] is Captured),
    ensures
        delivered(stage, events) == Seq::<FrameView>::empty(),
    decreases events.len(),
{
    if events.len() > 0 {
        let front = events.drop_last();
        assert forall|n: int| 0 <= n < front.len() implies !(#[trigger] front[n] is Captured) by {
            assert(front[n] == events[n]);
        }
        no_capture_no_frame(stage, front);
        assert(!(events[events.len() - 1] is Captured));
    }
}

/// A stream that is started and stopped before any frame is captured hands
/// no frame to the sink and leaves the device closed: whatever the outcomes
/// of the calls in between, the run ends in `Idle` with nothing open, and
/// the request to stop has closed whatever the start had opened.
pub proof fn start_then_stop_delivers_nothing(device: Seq<char>, between: Seq<EventView>)
    requires
        forall|n: int| 0 <= n < between.len() ==> !(#[trigger] between[n] is Captured),
    ensures
        ({
            let start = seq![EventView::Request(RequestView::StartStream(device))];
            let whole = (start + between).push(EventView::Request(RequestView::StopStream));
            &&& delivered(Stage::Idle, whole) == Seq::<FrameView>::empty()
            &&& run(Stage::Idle, whole) == Stage::Idle
            &&& run(Stage::Idle, whole).handles() == Handles::Nothing
            &&& last_reaction(Stage::Idle, whole).release == run(
                Stage::Idle,
                start + between,
            ).handles()
        }),
{
    let start = seq![EventView::Request(RequestView::StartStream(device))];
    let stop = EventView::Request(RequestView::StopStream);
    let whole = (start + between).push(stop);
    assert forall|n: int| 0 <= n < whole.len() implies !(#[trigger] whole[n] is Captured) by {
        if 1 <= n < whole.len() - 1 {
            assert(whole[n] == between[n - 1]);
        }
    }
    no_capture_no_frame(Stage::Idle, whole);
    assert(whole.drop_last() == start + between);
    stop_is_idempotent(run(Stage::Idle, start + between));
}

/// The four steps that start a stream on a device that opens and yields
/// its format: the request, the opened device, the format read, and the
/// format that the device settled on.
pub open spec fn negotiation(device: Seq<char>, current: Format, negotiated: Format) -> Seq<
    EventView,
> {
    seq![
        EventView::Request(RequestView::StartStream(device)),
        EventView::DeviceOpened(true),
        EventView::FormatRead(Some(current)),
        EventView::FormatSet(Some(negotiated)),
    ]
}

/// The reaction of a coordinator that gives up the start of a stream.
pub open spec fn start_refused(release: Handles, error: CoordinatorError) -> ReactionView {
    ReactionView {
        release,
        output: Some(OutputView::Reply(ResponseView::StartStream(Err(error)))),
        next: CallView::Receive { timeout_ms: IDLE_WAIT_MS },
    }
}

/// The value of a run of four events, step by step.
proof fn unfold_negotiation(device: Seq<char>, current: Format, negotiated: Format)
    ensures
        ({
            let events = negotiation(device, current, negotiated);
            &&& run(Stage::Idle, events.take(3)) == Stage::Negotiating
            &&& events.drop_last() == events.take(3)
            &&& last_reaction(Stage::Idle, events.take(3)).next == CallView::SetFormat(
                current.for_display(),
            )
        }),
{
    let events = negotiation(device, current, negotiated);
    let e0 = Seq::<EventView>::empty();
    let e1 = events.take(1);
    let e2 = events.take(2);
    let e3 = events.take(3);
    assert(e1.drop_last() == e0);
    assert(e2.drop_last() == e1);
    assert(e3.drop_last() == e2);
    assert(events.drop_last() == e3);
    assert(run(Stage::Idle, e0) == Stage::Idle);
    assert(run(Stage::Idle, e1) == transition(Stage::Idle, e1.last()).0);
    assert(run(Stage::Idle, e2) == transition(run(Stage::Idle, e1), e2.last()).0);
    assert(run(Stage::Idle, e3) == transition(run(Stage::Idle, e2), e3.last()).0);
}

/// The device is asked for its own dimensions in the display's pixel
/// layout. If it settles on another layout, the start fails: the device is
/// closed again, the client is told that the negotiation failed, and the
/// coordinator is idle. If it settles on the display's layout, the
/// coordinator goes on to ask for the stream.
pub proof fn negotiation_decides(device: Seq<char>, current: Format, negotiated: Format)
    ensures
        ({
            let events = negotiation(device, current, negotiated);
            &&& last_reaction(Stage::Idle, events.take(3)).next == CallView::SetFormat(
                current.for_display(),
            )
            &&& !negotiated.displayable() ==> {
                &&& run(Stage::Idle, events) == Stage::Idle
                &&& last_reaction(Stage::Idle, events) == start_refused(
                    Handles::Device,
                    CoordinatorError::FormatNegotiationFailed,
                )
            }
            &&& negotiated.displayable() ==> {
                &&& run(Stage::Idle, events) == Stage::OpeningStream(negotiated)
                &&& last_reaction(Stage::Idle, events).next == CallView::OpenStream
                &&& last_reaction(Stage::Idle, events).release == Handles::Nothing
            }
        }),
{
    unfold_negotiation(device, current, negotiated);
}

/// Every step keeps the format of the stream displayable.
pub proof fn step_keeps_format_displayable(stage: Stage, event: EventView)
    requires
        stage.sound(),
    ensures
        transition(stage, event).0.sound(),
{
}

/// Every run from `Idle` streams only in a displayable format.
pub proof fn streams_only_displayable(events: Seq<EventView>)
    ensures
        run(Stage::Idle, events).sound(),
    decreases events.len(),
{
    if events.len() > 0 {
        streams_only_displayable(events.drop_last());
        step_keeps_format_displayable(run(Stage::Idle, events.drop_last()), events.last());
    }
}

/// What the open device answers to a query or a setting never stops the
/// stream, with one exception: where the device has left the display's
/// pixel layout for another, the stream is stopped and all is closed.
pub proof fn answers_keep_the_stream(stage: Stage, request: RequestView, answer: AnswerView)
    requires
        stage is Streaming,
    ensures
        ({
            let (next, reaction) = transition(stage, EventView::Answered(request, answer));
            let left = format_change(request, answer) matches Some(format) && !format.displayable();
            &&& reaction.output is Some
            &&& !left ==> next is Streaming && reaction.release == Handles::Nothing
            &&& left ==> next == Stage::Idle && reaction.release == Handles::StreamAndDevice
        }),
{
}

/// The events of a stream that yields the given frames while no request
/// arrives: each frame captured is followed by a wait that runs out.
pub open spec fn capture_rounds(frames: Seq<FrameView>) -> Seq<EventView>
    decreases frames.len(),
{
    if frames.len() == 0 {
        Seq::empty()
    } else {
        capture_rounds(frames.drop_last()).push(EventView::Captured(Some(frames.last()))).push(
            EventView::NoRequest,
        )
    }
}

/// Frames reach the sink in the order of their capture, each once and none
/// missing: a stream that yields complete frames has exactly those frames
/// delivered, in that order, and goes on streaming.
pub proof fn frames_keep_capture_order(format: Format, frames: Seq<FrameView>)
    requires
        forall|n: int| 0 <= n < frames.len() ==> (#[trigger] frames[n]).complete(),
    ensures
        delivered(Stage::Streaming(format), capture_rounds(frames)) == frames,
        run(Stage::Streaming(format), capture_rounds(frames)) == Stage::Streaming(format),
    decreases frames.len(),
{
    let stage = Stage::Streaming(format);
    if frames.len() > 0 {
        let front = frames.drop_last();
        assert forall|n: int| 0 <= n < front.len() implies (#[trigger] front[n]).complete() by {
            assert(front[n] == frames[n]);
        }
        frames_keep_capture_order(format, front);
        let before = capture_rounds(front);
        let captured = before.push(EventView::Captured(Some(frames.last())));
        let rounds = captured.push(EventView::NoRequest);
        assert(rounds == capture_rounds(frames));
        assert(captured.drop_last() == before);
        assert(rounds.drop_last() == captured);
        assert(frames.last().complete());
        assert(run(stage, captured) == stage);
        assert(delivered(stage, captured) == delivered(stage, before).push(frames.last()));
        assert(delivered(stage, rounds) == delivered(stage, captured));
        assert(front.push(frames.last()) == frames);
    } else {
        assert(delivered(stage, capture_rounds(frames)) == frames);
    }
}

/// The wait for a request is as long as the stage asks: none while
/// streaming, so that capture is not held up, and a tenth of a second
/// while idle, so that the worker does not spin.
pub proof fn waits_as_the_stage_asks(stage: Stage, event: EventView)
    ensures
        transition(stage, event).1.next matches CallView::Receive { timeout_ms } ==> timeout_ms
            == (if transition(stage, event).0 is Streaming {
            STREAMING_WAIT_MS
        } else {
            IDLE_WAIT_MS
        }),
{
}

} // verus!
