//! Requests to the coordinator, the answers to them, and the handle through
//! which clients send requests.

use std::sync::mpsc::Sender;
use std::sync::Arc;
use vstd::prelude::*;
use crate::models::{Control, ControlView, CoordinatorError, Device, Format};

verus! {

/// A command for the coordinator.
#[derive(Debug)]
pub enum Request {
    StartStream(Device),
    StopStream,
    QueryFormats,
    QueryControls,
    GetFormat,
    SetFormat(Format),
    SetControl(Control),
}

/// The mathematical content of a request.
pub enum RequestView {
    StartStream(Seq<char>),
    StopStream,
    QueryFormats,
    QueryControls,
    GetFormat,
    SetFormat(Format),
    SetControl(ControlView),
}

impl View for Request {
    type V = RequestView;

    open spec fn view(&self) -> RequestView {
        match self {
            Request::StartStream(device) => RequestView::StartStream(device@),
            Request::StopStream => RequestView::StopStream,
            Request::QueryFormats => RequestView::QueryFormats,
            Request::QueryControls => RequestView::QueryControls,
            Request::GetFormat => RequestView::GetFormat,
            Request::SetFormat(format) => RequestView::SetFormat(*format),
            Request::SetControl(control) => RequestView::SetControl(control@),
        }
    }
}

/// The outcome of a request: one variant for each kind of request.
#[derive(Debug)]
pub enum Response {
    StartStream(Result<(), CoordinatorError>),
    StopStream(Result<(), CoordinatorError>),
    QueryFormats(Result<Vec<Format>, CoordinatorError>),
    QueryControls(Result<Vec<Control>, CoordinatorError>),
    GetFormat(Result<Format, CoordinatorError>),
    SetFormat(Result<Format, CoordinatorError>),
    SetControl(Result<Control, CoordinatorError>),
}

/// The mathematical content of a response.
pub enum ResponseView {
    StartStream(Result<(), CoordinatorError>),
    StopStream(Result<(), CoordinatorError>),
    QueryFormats(Result<Seq<Format>, CoordinatorError>),
    QueryControls(Result<Seq<ControlView>, CoordinatorError>),
    GetFormat(Result<Format, CoordinatorError>),
    SetFormat(Result<Format, CoordinatorError>),
    SetControl(Result<ControlView, CoordinatorError>),
}

impl View for Response {
    type V = ResponseView;

    open spec fn view(&self) -> ResponseView {
        match self {
            Response::StartStream(r) => ResponseView::StartStream(*r),
            Response::StopStream(r) => ResponseView::StopStream(*r),
            Response::QueryFormats(r) => ResponseView::QueryFormats(
                match r {
                    Ok(formats) => Ok(formats@),
                    Err(e) => Err(*e),
                },
            ),
            Response::QueryControls(r) => ResponseView::QueryControls(
                match r {
                    Ok(controls) => Ok(controls@.map_values(|c: Control| c@)),
                    Err(e) => Err(*e),
                },
            ),
            Response::GetFormat(r) => ResponseView::GetFormat(*r),
            Response::SetFormat(r) => ResponseView::SetFormat(*r),
            Response::SetControl(r) => ResponseView::SetControl(
                match r {
                    Ok(control) => Ok(control@),
                    Err(e) => Err(*e),
                },
            ),
        }
    }
}

/// What the open device said to a query or a setting.
#[derive(Debug)]
pub enum Answer {
    /// The device failed.
    Failed,
    /// The formats the device offers.
    Formats(Vec<Format>),
    /// The controls the device offers.
    Controls(Vec<Control>),
    /// The format the device is set to, or has settled on.
    Format(Format),
    /// The device took the setting.
    Done,
}

/// The mathematical content of an answer.
pub enum AnswerView {
    Failed,
    Formats(Seq<Format>),
    Controls(Seq<ControlView>),
    Format(Format),
    Done,
}

impl View for Answer {
    type V = AnswerView;

    open spec fn view(&self) -> AnswerView {
        match self {
            Answer::Failed => AnswerView::Failed,
            Answer::Formats(formats) => AnswerView::Formats(formats@),
            Answer::Controls(controls) => AnswerView::Controls(
                controls@.map_values(|c: Control| c@),
            ),
            Answer::Format(format) => AnswerView::Format(*format),
            Answer::Done => AnswerView::Done,
        }
    }
}

impl RequestView {
    /// The response to this request, given what the open device said to it.
    /// An answer of the kind that the request asks for is handed on; a
    /// setting that was taken is confirmed with the control as it was asked
    /// for. A format that the device did not take is a failed negotiation.
    /// Every other answer, and every answer to a request that is none for
    /// the device, is a failed query.
    pub open spec fn answered(self, answer: AnswerView) -> ResponseView {
        match (self, answer) {
            (RequestView::QueryFormats, AnswerView::Formats(formats)) => ResponseView::QueryFormats(
                Ok(formats),
            ),
            (
                RequestView::QueryControls,
                AnswerView::Controls(controls),
            ) => ResponseView::QueryControls(Ok(controls)),
            (RequestView::GetFormat, AnswerView::Format(format)) => ResponseView::GetFormat(
                Ok(format),
            ),
            (RequestView::SetFormat(_), AnswerView::Format(format)) => ResponseView::SetFormat(
                Ok(format),
            ),
            (RequestView::SetFormat(_), _) => ResponseView::SetFormat(
                Err(CoordinatorError::FormatNegotiationFailed),
            ),
            (RequestView::SetControl(control), AnswerView::Done) => ResponseView::SetControl(
                Ok(control),
            ),
            _ => self.refusal(CoordinatorError::QueryFailed),
        }
    }

    /// The response that tells the sender of this request that it failed.
    pub open spec fn refusal(self, error: CoordinatorError) -> ResponseView {
        match self {
            RequestView::StartStream(_) => ResponseView::StartStream(Err(error)),
            RequestView::StopStream => ResponseView::StopStream(Err(error)),
            RequestView::QueryFormats => ResponseView::QueryFormats(Err(error)),
            RequestView::QueryControls => ResponseView::QueryControls(Err(error)),
            RequestView::GetFormat => ResponseView::GetFormat(Err(error)),
            RequestView::SetFormat(_) => ResponseView::SetFormat(Err(error)),
            RequestView::SetControl(_) => ResponseView::SetControl(Err(error)),
        }
    }

    /// Whether the request asks something of an open device: every request
    /// but the two that start and stop the stream.
    pub open spec fn needs_device(self) -> bool {
        !(self is StartStream) && !(self is StopStream)
    }
}

impl Request {
    /// The request for a stream from the device.
    pub fn start_stream(device: &Device) -> (r: Request)
        ensures
            r@ == RequestView::StartStream(device@),
    {
        Request::StartStream(device.clone())
    }

    /// The request to set the device to the format.
    pub fn set_format(fmt: &Format) -> (r: Request)
        ensures
            r@ == RequestView::SetFormat(*fmt),
    {
        Request::SetFormat(*fmt)
    }

    /// The request to set the control to the value it carries.
    pub fn set_control(ctrl: &Control) -> (r: Request)
        ensures
            r@ == RequestView::SetControl(ctrl@),
    {
        Request::SetControl(ctrl.clone())
    }

    /// Computes [`RequestView::answered`].
    pub fn answered(self, answer: Answer) -> (r: Response)
        ensures
            r@ == self@.answered(answer@),
    {
        match self {
            Request::QueryFormats => match answer {
                Answer::Formats(formats) => Response::QueryFormats(Ok(formats)),
                _ => Response::QueryFormats(Err(CoordinatorError::QueryFailed)),
            },
            Request::QueryControls => match answer {
                Answer::Controls(controls) => Response::QueryControls(Ok(controls)),
                _ => Response::QueryControls(Err(CoordinatorError::QueryFailed)),
            },
            Request::GetFormat => match answer {
                Answer::Format(format) => Response::GetFormat(Ok(format)),
                _ => Response::GetFormat(Err(CoordinatorError::QueryFailed)),
            },
            Request::SetFormat(_) => match answer {
                Answer::Format(format) => Response::SetFormat(Ok(format)),
                _ => Response::SetFormat(Err(CoordinatorError::FormatNegotiationFailed)),
            },
            Request::SetControl(control) => match answer {
                Answer::Done => Response::SetControl(Ok(control)),
                _ => Response::SetControl(Err(CoordinatorError::QueryFailed)),
            },
            Request::StartStream(_) => Response::StartStream(Err(CoordinatorError::QueryFailed)),
            Request::StopStream => Response::StopStream(Err(CoordinatorError::QueryFailed)),
        }
    }

    /// Computes [`RequestView::refusal`].
    pub fn refuse(&self, error: CoordinatorError) -> (r: Response)
        ensures
            r@ == self@.refusal(error),
    {
        match self {
            Request::StartStream(_) => Response::StartStream(Err(error)),
            Request::StopStream => Response::StopStream(Err(error)),
            Request::QueryFormats => Response::QueryFormats(Err(error)),
            Request::QueryControls => Response::QueryControls(Err(error)),
            Request::GetFormat => Response::GetFormat(Err(error)),
            Request::SetFormat(_) => Response::SetFormat(Err(error)),
            Request::SetControl(_) => Response::SetControl(Err(error)),
        }
    }
}

/// The sending half of std's channel, `std::sync::mpsc::Sender`. Nothing is
/// known of what is inside.
#[verifier::external_type_specification]
#[verifier::external_body]
#[verifier::reject_recursive_types(T)]
pub struct ExSender<T>(Sender<T>);

/// Calls `Sender::send`, which never blocks.
///
/// It fails only when the receiving half is gone, and then hands the value
/// back; that is all the contract claims. Whether it fails depends on the
/// other end of the channel.
#[verifier::external_body]
fn send_request(channel: &Sender<Request>, request: Request) -> (r: Result<(), Request>)
    ensures
        r matches Err(back) ==> back@ == request@,
    opens_invariants none
    no_unwind
{
    match channel.send(request) {
        Ok(()) => Ok(()),
        Err(failed) => Err(failed.0),
    }
}

/// What the client is told once a request was handed to the channel. The
/// channel either took the request or, its receiving side being gone, gave
/// it back; the client hears of the second as `ChannelClosed`.
pub fn report_delivery(sent: Result<(), Request>) -> (r: Result<(), CoordinatorError>)
    ensures
        sent is Ok ==> r == Ok::<(), CoordinatorError>(()),
        sent is Err ==> r == Err::<(), CoordinatorError>(CoordinatorError::ChannelClosed),
    opens_invariants none
    no_unwind
{
    match sent {
        Ok(()) => Ok(()),
        Err(_) => Err(CoordinatorError::ChannelClosed),
    }
}

/// What the owners of a handle share: the sending side of the channel. It
/// is made by [`Connection::new`] only, and dropped when the last owner lets
/// go.
#[derive(Debug)]
pub struct Link {
    connection: Sender<Request>,
}

impl Link {
    /// The channel that the owners send on.
    pub closed spec fn channel(&self) -> Sender<Request> {
        self.connection
    }
}

impl Drop for Link {
    /// Asks the coordinator to stop the stream, once. A coordinator that is
    /// gone needs no telling. The channel itself is left as it is.
    fn drop(&mut self)
        ensures
            final(self).channel() == old(self).channel(),
        opens_invariants none
        no_unwind
    {
        let _ = report_delivery(send_request(&self.connection, Request::StopStream));
    }
}

/// A client's handle on the coordinator: the sending side of the request
/// channel. Each method puts one request on the channel and returns at
/// once. A handle can be cloned; the clones are owners of one and the same
/// handle. When the last owner is dropped, the coordinator is asked to stop
/// the stream.
#[derive(Debug)]
pub struct Connection {
    link: Arc<Link>,
}

impl Clone for Connection {
    /// One more owner of the same handle.
    fn clone(&self) -> (r: Connection)
        ensures
            r.channel() == self.channel(),
    {
        Connection { link: self.link.clone() }
    }
}

impl Connection {
    /// The channel on which the handle sends.
    pub closed spec fn channel(&self) -> Sender<Request> {
        self.link.channel()
    }

    /// A handle that sends on the given channel.
    pub fn new(connection: Sender<Request>) -> (r: Connection)
        ensures
            r.channel() == connection,
    {
        Connection { link: Arc::new(Link { connection }) }
    }

    /// Puts the request on the channel. Fails with `ChannelClosed`, and with
    /// nothing else, when the coordinator's side of the channel is gone.
    pub fn submit(&self, request: Request) -> (r: Result<(), CoordinatorError>)
        ensures
            r matches Err(e) ==> e == CoordinatorError::ChannelClosed,
        opens_invariants none
        no_unwind
    {
        report_delivery(send_request(&self.link.connection, request))
    }

    /// Asks for a stream from the device.
    pub fn start_stream(&self, device: &Device) -> (r: Result<(), CoordinatorError>)
        ensures
            r matches Err(e) ==> e == CoordinatorError::ChannelClosed,
    {
        self.submit(Request::start_stream(device))
    }

    /// Asks for the stream to be stopped.
    pub fn stop_stream(&self) -> (r: Result<(), CoordinatorError>)
        ensures
            r matches Err(e) ==> e == CoordinatorError::ChannelClosed,
        opens_invariants none
        no_unwind
    {
        self.submit(Request::StopStream)
    }

    /// Asks which formats the device offers.
    pub fn query_formats(&self) -> (r: Result<(), CoordinatorError>)
        ensures
            r matches Err(e) ==> e == CoordinatorError::ChannelClosed,
    {
        self.submit(Request::QueryFormats)
    }

    /// Asks which controls the device offers.
    pub fn query_controls(&self) -> (r: Result<(), CoordinatorError>)
        ensures
            r matches Err(e) ==> e == CoordinatorError::ChannelClosed,
    {
        self.submit(Request::QueryControls)
    }

    /// Asks for the format the device is set to.
    pub fn format(&self) -> (r: Result<(), CoordinatorError>)
        ensures
            r matches Err(e) ==> e == CoordinatorError::ChannelClosed,
    {
        self.submit(Request::GetFormat)
    }

    /// Asks for the device to be set to the format.
    pub fn set_format(&self, fmt: &Format) -> (r: Result<(), CoordinatorError>)
        ensures
            r matches Err(e) ==> e == CoordinatorError::ChannelClosed,
    {
        self.submit(Request::set_format(fmt))
    }

    /// Asks for the control to be set to the value it carries.
    pub fn set_control(&self, ctrl: &Control) -> (r: Result<(), CoordinatorError>)
        ensures
            r matches Err(e) ==> e == CoordinatorError::ChannelClosed,
    {
        self.submit(Request::set_control(ctrl))
    }
}

} // verus!
