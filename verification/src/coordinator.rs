//! The capture coordinator as a state machine.
//!
//! The coordinator owns no device and no channel. It is told what happened
//! (an [`Event`]) and answers with what to do (a [`Reaction`]): which handles
//! to close, what to hand out, and which call to make next. The worker that
//! owns the device makes that call and reports its outcome as the next event.

use vstd::prelude::*;
use crate::connection::{Answer, AnswerView, Request, RequestView, Response, ResponseView};
use crate::convert::convert_frame;
use crate::models::{CoordinatorError, Device, Format, Frame, FrameView, RawFrame};

verus! {

/// How long the worker waits for a request while no stream is open, in
/// milliseconds.
pub const IDLE_WAIT_MS: u64 = 100;

/// How long the worker waits for a request while a stream is open: it only
/// takes a request that is already there.
pub const STREAMING_WAIT_MS: u64 = 0;

/// Where the coordinator stands.
///
/// `Idle` and `Streaming` are the two states in which requests are served.
/// The others are passed through while a stream is being started; each names
/// the answer that is awaited.
#[derive(Clone, Copy, Debug, PartialEq, Eq, Structural)]
pub enum Stage {
    /// No device is open.
    Idle,
    /// The device is being opened.
    Opening,
    /// The device is open and was asked for its current format.
    ReadingFormat,
    /// The device is open and was asked to take the display's pixel layout.
    Negotiating,
    /// The device is open, agreed to the format, and was asked for a stream.
    OpeningStream(Format),
    /// Device and stream are open; frames have the format.
    Streaming(Format),
}

/// The handles that the worker holds open for the coordinator.
#[derive(Clone, Copy, Debug, PartialEq, Eq, Structural)]
pub enum Handles {
    Nothing,
    Device,
    StreamAndDevice,
}

impl Stage {
    /// The handles that are open in this stage.
    pub open spec fn handles(self) -> Handles {
        match self {
            Stage::Idle | Stage::Opening => Handles::Nothing,
            Stage::ReadingFormat | Stage::Negotiating | Stage::OpeningStream(_) => Handles::Device,
            Stage::Streaming(_) => Handles::StreamAndDevice,
        }
    }

    /// Whether requests are served in this stage.
    pub open spec fn settled(self) -> bool {
        self is Idle || self is Streaming
    }

    /// Whether the format that the stage carries, if it carries one, is in
    /// the display's pixel layout. No other format is ever streamed.
    pub open spec fn sound(self) -> bool {
        match self {
            Stage::OpeningStream(format) | Stage::Streaming(format) => format.displayable(),
            _ => true,
        }
    }
}

/// What the worker reports to the coordinator.
#[derive(Debug)]
pub enum Event {
    /// The channel gave a request.
    Request(Request),
    /// The wait for a request ran out.
    NoRequest,
    /// Whether the device could be opened.
    DeviceOpened(bool),
    /// The format the device is set to, if it could be read.
    FormatRead(Option<Format>),
    /// The format the device settled on, if it took one.
    FormatSet(Option<Format>),
    /// Whether the device gave a stream.
    StreamOpened(bool),
    /// The next frame of the stream, if it gave one.
    Captured(Option<RawFrame>),
    /// What the open device said to the request it was asked.
    Answered(Request, Answer),
    /// The worker was told to end: the wait for a request found the signal
    /// to shut down.
    Shutdown,
}

/// The mathematical content of an event.
pub enum EventView {
    Request(RequestView),
    NoRequest,
    DeviceOpened(bool),
    FormatRead(Option<Format>),
    FormatSet(Option<Format>),
    StreamOpened(bool),
    Captured(Option<FrameView>),
    Answered(RequestView, AnswerView),
    Shutdown,
}

impl View for Event {
    type V = EventView;

    open spec fn view(&self) -> EventView {
        match self {
            Event::Request(request) => EventView::Request(request@),
            Event::NoRequest => EventView::NoRequest,
            Event::DeviceOpened(ok) => EventView::DeviceOpened(*ok),
            Event::FormatRead(format) => EventView::FormatRead(*format),
            Event::FormatSet(format) => EventView::FormatSet(*format),
            Event::StreamOpened(ok) => EventView::StreamOpened(*ok),
            Event::Captured(raw) => EventView::Captured(
                match raw {
                    Some(raw) => Some(raw@),
                    None => None,
                },
            ),
            Event::Answered(request, answer) => EventView::Answered(request@, answer@),
            Event::Shutdown => EventView::Shutdown,
        }
    }
}

/// The call that the worker makes next; its outcome is the next event.
#[derive(Debug)]
pub enum Call {
    /// Wait for a request, at most this long.
    Receive { timeout_ms: u64 },
    /// Open the device.
    OpenDevice(Device),
    /// Read the format of the open device.
    ReadFormat,
    /// Ask the open device for the format.
    SetFormat(Format),
    /// Ask the open device for a stream.
    OpenStream,
    /// Take the next frame from the open stream.
    Capture,
    /// Put the query or the setting to the open device.
    Ask(Request),
    /// Leave the loop; no event is awaited.
    Halt,
}

/// The mathematical content of a call.
pub enum CallView {
    Receive { timeout_ms: u64 },
    OpenDevice(Seq<char>),
    ReadFormat,
    SetFormat(Format),
    OpenStream,
    Capture,
    Ask(RequestView),
    Halt,
}

impl View for Call {
    type V = CallView;

    open spec fn view(&self) -> CallView {
        match self {
            Call::Receive { timeout_ms } => CallView::Receive { timeout_ms: *timeout_ms },
            Call::OpenDevice(device) => CallView::OpenDevice(device@),
            Call::ReadFormat => CallView::ReadFormat,
            Call::SetFormat(format) => CallView::SetFormat(*format),
            Call::OpenStream => CallView::OpenStream,
            Call::Capture => CallView::Capture,
            Call::Ask(request) => CallView::Ask(request@),
            Call::Halt => CallView::Halt,
        }
    }
}

/// What leaves the coordinator in one step.
#[derive(Debug)]
pub enum Output {
    /// A frame for the frame sink.
    Deliver(Frame),
    /// The outcome of the request that was served.
    Reply(Response),
    /// A failure that no request asked for.
    Fault(CoordinatorError),
}

/// The mathematical content of an output.
pub enum OutputView {
    Deliver(FrameView),
    Reply(ResponseView),
    Fault(CoordinatorError),
}

impl View for Output {
    type V = OutputView;

    open spec fn view(&self) -> OutputView {
        match self {
            Output::Deliver(frame) => OutputView::Deliver(frame@),
            Output::Reply(response) => OutputView::Reply(response@),
            Output::Fault(error) => OutputView::Fault(*error),
        }
    }
}

/// The coordinator's answer to an event. The worker closes the handles
/// named in `release` (the stream before the device), then hands out
/// `output`, then makes the call `next`.
#[derive(Debug)]
pub struct Reaction {
    pub release: Handles,
    pub output: Option<Output>,
    pub next: Call,
}

/// The mathematical content of a reaction.
pub struct ReactionView {
    pub release: Handles,
    pub output: Option<OutputView>,
    pub next: CallView,
}

impl View for Reaction {
    type V = ReactionView;

    open spec fn view(&self) -> ReactionView {
        ReactionView {
            release: self.release,
            output: match self.output {
                Some(output) => Some(output@),
                None => None,
            },
            next: self.next@,
        }
    }
}

/// The call with which each round of the worker's loop ends and the next
/// begins: capture while streaming, else wait for a request.
pub open spec fn resume(stage: Stage) -> CallView {
    if stage is Streaming {
        CallView::Capture
    } else {
        CallView::Receive { timeout_ms: IDLE_WAIT_MS }
    }
}

/// The coordinator falls back to `Idle`: it has the given handles closed
/// and hands out the given output.
pub open spec fn fall_idle(release: Handles, output: Option<OutputView>) -> (Stage, ReactionView) {
    (Stage::Idle, ReactionView { release, output, next: resume(Stage::Idle) })
}

/// The start of a stream failed with the given error: what is open is
/// closed and the client is told.
pub open spec fn start_failed(stage: Stage, error: CoordinatorError) -> (Stage, ReactionView) {
    fall_idle(stage.handles(), Some(OutputView::Reply(ResponseView::StartStream(Err(error)))))
}

/// How a request is served in a settled stage.
pub open spec fn serve(stage: Stage, request: RequestView) -> (Stage, ReactionView) {
    match request {
        RequestView::StartStream(device) => (
            Stage::Opening,
            ReactionView {
                release: stage.handles(),
                output: None,
                next: CallView::OpenDevice(device),
            },
        ),
        RequestView::StopStream => fall_idle(
            stage.handles(),
            Some(OutputView::Reply(ResponseView::StopStream(Ok(())))),
        ),
        _ => if stage is Streaming {
            (
                stage,
                ReactionView {
                    release: Handles::Nothing,
                    output: None,
                    next: CallView::Ask(request),
                },
            )
        } else {
            fall_idle(
                Handles::Nothing,
                Some(OutputView::Reply(request.refusal(CoordinatorError::NoDeviceOpen))),
            )
        },
    }
}

/// The format that the stream has from now on, where the answer is the
/// device's to a request to set its format.
pub open spec fn format_change(request: RequestView, answer: AnswerView) -> Option<Format> {
    match (request, answer) {
        (RequestView::SetFormat(_), AnswerView::Format(format)) => Some(format),
        _ => None,
    }
}

/// How the answer of the open device is taken while streaming. The client
/// is told what [`RequestView::answered`] makes of the answer. Where the
/// device has settled on a new format, the stream goes on in it if the
/// display takes it; if not, the stream is stopped, the handles are closed
/// and the client is told that the negotiation failed.
pub open spec fn settle(stage: Stage, request: RequestView, answer: AnswerView) -> (
    Stage,
    ReactionView,
) {
    match format_change(request, answer) {
        Some(format) => if format.displayable() {
            (
                Stage::Streaming(format),
                ReactionView {
                    release: Handles::Nothing,
                    output: Some(OutputView::Reply(ResponseView::SetFormat(Ok(format)))),
                    next: CallView::Capture,
                },
            )
        } else {
            fall_idle(
                stage.handles(),
                Some(
                    OutputView::Reply(
                        ResponseView::SetFormat(Err(CoordinatorError::FormatNegotiationFailed)),
                    ),
                ),
            )
        },
        None => (
            stage,
            ReactionView {
                release: Handles::Nothing,
                output: Some(OutputView::Reply(request.answered(answer))),
                next: resume(stage),
            },
        ),
    }
}

/// The coordinator ends its work: whatever is open is closed, nothing is
/// handed out, and the worker leaves its loop.
pub open spec fn shut_down(stage: Stage) -> (Stage, ReactionView) {
    (Stage::Idle, ReactionView { release: stage.handles(), output: None, next: CallView::Halt })
}

/// The transition function of the coordinator: the stage after the event
/// and the reaction to it.
pub open spec fn transition(stage: Stage, event: EventView) -> (Stage, ReactionView) {
    if event is Shutdown {
        shut_down(stage)
    } else {
        react(stage, event)
    }
}

/// The reaction to every event but the signal to shut down.
pub open spec fn react(stage: Stage, event: EventView) -> (Stage, ReactionView) {
    match stage {
        Stage::Idle => match event {
            EventView::Request(request) => serve(stage, request),
            _ => fall_idle(Handles::Nothing, None),
        },
        Stage::Opening => match event {
            EventView::DeviceOpened(true) => (
                Stage::ReadingFormat,
                ReactionView { release: Handles::Nothing, output: None, next: CallView::ReadFormat },
            ),
            _ => start_failed(stage, CoordinatorError::DeviceOpenFailed),
        },
        Stage::ReadingFormat => match event {
            EventView::FormatRead(Some(current)) => (
                Stage::Negotiating,
                ReactionView {
                    release: Handles::Nothing,
                    output: None,
                    next: CallView::SetFormat(current.for_display()),
                },
            ),
            _ => start_failed(stage, CoordinatorError::FormatNegotiationFailed),
        },
        Stage::Negotiating => match event {
            EventView::FormatSet(Some(negotiated)) => if negotiated.displayable() {
                (
                    Stage::OpeningStream(negotiated),
                    ReactionView {
                        release: Handles::Nothing,
                        output: None,
                        next: CallView::OpenStream,
                    },
                )
            } else {
                start_failed(stage, CoordinatorError::FormatNegotiationFailed)
            },
            _ => start_failed(stage, CoordinatorError::FormatNegotiationFailed),
        },
        Stage::OpeningStream(format) => match event {
            EventView::StreamOpened(true) => (
                Stage::Streaming(format),
                ReactionView {
                    release: Handles::Nothing,
                    output: Some(OutputView::Reply(ResponseView::StartStream(Ok(())))),
                    next: CallView::Capture,
                },
            ),
            _ => start_failed(stage, CoordinatorError::StreamOpenFailed),
        },
        Stage::Streaming(_) => match event {
            EventView::Request(request) => serve(stage, request),
            EventView::Answered(request, answer) => settle(stage, request, answer),
            EventView::Captured(Some(raw)) => if raw.complete() {
                (
                    stage,
                    ReactionView {
                        release: Handles::Nothing,
                        output: Some(OutputView::Deliver(raw)),
                        next: CallView::Receive { timeout_ms: STREAMING_WAIT_MS },
                    },
                )
            } else {
                fall_idle(
                    stage.handles(),
                    Some(OutputView::Fault(CoordinatorError::FrameCaptureFailed)),
                )
            },
            EventView::Captured(None) => fall_idle(
                stage.handles(),
                Some(OutputView::Fault(CoordinatorError::FrameCaptureFailed)),
            ),
            _ => (
                stage,
                ReactionView { release: Handles::Nothing, output: None, next: resume(stage) },
            ),
        },
    }
}

/// The capture coordinator.
#[derive(Debug)]
pub struct Coordinator {
    stage: Stage,
}

impl View for Coordinator {
    type V = Stage;

    closed spec fn view(&self) -> Stage {
        self.stage
    }
}

impl Coordinator {
    /// A coordinator is never in a stage that is not sound.
    #[verifier::type_invariant]
    spec fn stage_is_sound(self) -> bool {
        self.stage.sound()
    }
}

/// Computes [`resume`].
fn resume_call(stage: Stage) -> (r: Call)
    ensures
        r@ == resume(stage),
{
    match stage {
        Stage::Streaming(_) => Call::Capture,
        _ => Call::Receive { timeout_ms: IDLE_WAIT_MS },
    }
}

/// Computes [`Stage::handles`].
fn handles_of(stage: Stage) -> (r: Handles)
    ensures
        r == stage.handles(),
{
    match stage {
        Stage::Idle | Stage::Opening => Handles::Nothing,
        Stage::ReadingFormat | Stage::Negotiating | Stage::OpeningStream(_) => Handles::Device,
        Stage::Streaming(_) => Handles::StreamAndDevice,
    }
}

impl Coordinator {
    /// A coordinator with no device open.
    pub fn new() -> (r: Coordinator)
        ensures
            r@ == Stage::Idle,
    {
        Coordinator { stage: Stage::Idle }
    }

    /// The stage the coordinator is in.
    pub fn stage(&self) -> (r: Stage)
        ensures
            r == self@,
            r.sound(),
    {
        proof {
            use_type_invariant(self);
        }
        self.stage
    }

    /// Whether a stream is open.
    pub fn is_streaming(&self) -> (r: bool)
        ensures
            r == (self@ is Streaming),
    {
        match self.stage {
            Stage::Streaming(_) => true,
            _ => false,
        }
    }

    /// The handles that the worker holds open at this point.
    pub fn open_handles(&self) -> (r: Handles)
        ensures
            r == self@.handles(),
    {
        handles_of(self.stage)
    }

    /// The call with which the worker begins: what [`resume`] gives for the
    /// present stage.
    pub fn first_call(&self) -> (r: Call)
        ensures
            r@ == resume(self@),
    {
        resume_call(self.stage)
    }

    /// Falls back to `Idle` as [`fall_idle`] says.
    fn fall_idle(&mut self, release: Handles, output: Option<Output>) -> (r: Reaction)
        ensures
            (final(self)@, r@) == fall_idle(
                release,
                match output {
                    Some(output) => Some(output@),
                    None => None,
                },
            ),
    {
        self.stage = Stage::Idle;
        Reaction { release, output, next: Call::Receive { timeout_ms: IDLE_WAIT_MS } }
    }

    /// Gives up the start of a stream as [`start_failed`] says.
    fn start_failed(&mut self, error: CoordinatorError) -> (r: Reaction)
        ensures
            (final(self)@, r@) == start_failed(old(self)@, error),
    {
        let release = handles_of(self.stage);
        self.fall_idle(release, Some(Output::Reply(Response::StartStream(Err(error)))))
    }

    /// Serves a request as [`serve`] says.
    fn serve(&mut self, request: Request) -> (r: Reaction)
        ensures
            (final(self)@, r@) == serve(old(self)@, request@),
    {
        let held = handles_of(self.stage);
        match request {
            Request::StartStream(device) => {
                self.stage = Stage::Opening;
                Reaction { release: held, output: None, next: Call::OpenDevice(device) }
            },
            Request::StopStream => {
                self.fall_idle(held, Some(Output::Reply(Response::StopStream(Ok(())))))
            },
            query => {
                if self.is_streaming() {
                    Reaction { release: Handles::Nothing, output: None, next: Call::Ask(query) }
                } else {
                    let refusal = query.refuse(CoordinatorError::NoDeviceOpen);
                    self.fall_idle(Handles::Nothing, Some(Output::Reply(refusal)))
                }
            },
        }
    }

    /// Takes the answer of the open device as [`settle`] says.
    fn settle(&mut self, request: Request, answer: Answer) -> (r: Reaction)
        requires
            old(self)@ is Streaming,
        ensures
            (final(self)@, r@) == settle(old(self)@, request@, answer@),
    {
        let changed: Option<Format> = match request {
            Request::SetFormat(_) => match answer {
                Answer::Format(format) => Some(format),
                _ => None,
            },
            _ => None,
        };
        match changed {
            Some(format) => {
                if format.is_displayable() {
                    self.stage = Stage::Streaming(format);
                    Reaction {
                        release: Handles::Nothing,
                        output: Some(Output::Reply(Response::SetFormat(Ok(format)))),
                        next: Call::Capture,
                    }
                } else {
                    self.fall_idle(
                        Handles::StreamAndDevice,
                        Some(
                            Output::Reply(
                                Response::SetFormat(Err(CoordinatorError::FormatNegotiationFailed)),
                            ),
                        ),
                    )
                }
            },
            None => {
                let stage = self.stage;
                Reaction {
                    release: Handles::Nothing,
                    output: Some(Output::Reply(request.answered(answer))),
                    next: resume_call(stage),
                }
            },
        }
    }

    /// Takes an event and answers with the reaction to it.
    ///
    /// The new stage and the reaction are those of [`transition`]. An event
    /// that is no answer to the call that was asked for is taken as that
    /// call's failure while a stream is being started, and as no request in
    /// the two settled stages. The signal to shut down is taken in every
    /// stage.
    pub fn step(&mut self, event: Event) -> (r: Reaction)
        ensures
            (final(self)@, r@) == transition(old(self)@, event@),
    {
        proof {
            use_type_invariant(&*self);
        }
        let stage = self.stage;
        if let Event::Shutdown = event {
            self.stage = Stage::Idle;
            return Reaction { release: handles_of(stage), output: None, next: Call::Halt };
        }
        match stage {
            Stage::Idle => match event {
                Event::Request(request) => self.serve(request),
                _ => self.fall_idle(Handles::Nothing, None),
            },
            Stage::Opening => match event {
                Event::DeviceOpened(true) => {
                    self.stage = Stage::ReadingFormat;
                    Reaction { release: Handles::Nothing, output: None, next: Call::ReadFormat }
                },
                _ => self.start_failed(CoordinatorError::DeviceOpenFailed),
            },
            Stage::ReadingFormat => match event {
                Event::FormatRead(Some(current)) => {
                    self.stage = Stage::Negotiating;
                    Reaction {
                        release: Handles::Nothing,
                        output: None,
                        next: Call::SetFormat(current.forced_for_display()),
                    }
                },
                _ => self.start_failed(CoordinatorError::FormatNegotiationFailed),
            },
            Stage::Negotiating => match event {
                Event::FormatSet(Some(negotiated)) => {
                    if negotiated.is_displayable() {
                        self.stage = Stage::OpeningStream(negotiated);
                        Reaction { release: Handles::Nothing, output: None, next: Call::OpenStream }
                    } else {
                        self.start_failed(CoordinatorError::FormatNegotiationFailed)
                    }
                },
                _ => self.start_failed(CoordinatorError::FormatNegotiationFailed),
            },
            Stage::OpeningStream(format) => match event {
                Event::StreamOpened(true) => {
                    self.stage = Stage::Streaming(format);
                    Reaction {
                        release: Handles::Nothing,
                        output: Some(Output::Reply(Response::StartStream(Ok(())))),
                        next: Call::Capture,
                    }
                },
                _ => self.start_failed(CoordinatorError::StreamOpenFailed),
            },
            Stage::Streaming(_) => match event {
                Event::Request(request) => self.serve(request),
                Event::Answered(request, answer) => self.settle(request, answer),
                Event::Captured(Some(raw)) => match convert_frame(raw) {
                    Ok(frame) => Reaction {
                        release: Handles::Nothing,
                        output: Some(Output::Deliver(frame)),
                        next: Call::Receive { timeout_ms: STREAMING_WAIT_MS },
                    },
                    Err(error) => self.fall_idle(
                        Handles::StreamAndDevice,
                        Some(Output::Fault(error)),
                    ),
                },
                Event::Captured(None) => self.fall_idle(
                    Handles::StreamAndDevice,
                    Some(Output::Fault(CoordinatorError::FrameCaptureFailed)),
                ),
                _ => Reaction {
                    release: Handles::Nothing,
                    output: None,
                    next: resume_call(stage),
                },
            },
        }
    }
}

} // verus!
