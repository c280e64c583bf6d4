use std::collections::VecDeque;

use camera_viewer::connection::{Answer, Request, Response};
use camera_viewer::coordinator::{
    Call, Coordinator, Event, Handles, Output, Reaction, Stage, IDLE_WAIT_MS, STREAMING_WAIT_MS,
};
use camera_viewer::models::{
    Control, CoordinatorError, Device, Format, Frame, PixelEncoding, RawFrame, Representation,
};

/// A device that answers from a script and counts what is open.
struct FakeDevice {
    opens: bool,
    current: Option<Format>,
    negotiates: Option<Format>,
    streams: bool,
    frames: VecDeque<Option<RawFrame>>,
    devices_open: u32,
    streams_open: u32,
    most_devices_open: u32,
    open_calls: u32,
    close_calls: u32,
    asked_for: Vec<Format>,
    opened: Vec<String>,
    answers: bool,
    settles_on: Option<Format>,
    asked: Vec<Request>,
}

impl FakeDevice {
    fn new(negotiates: Format) -> Self {
        FakeDevice {
            opens: true,
            current: Some(Format::new(negotiates.width, negotiates.height, PixelEncoding::Rgb(24))),
            negotiates: Some(negotiates),
            streams: true,
            frames: VecDeque::new(),
            devices_open: 0,
            streams_open: 0,
            most_devices_open: 0,
            open_calls: 0,
            close_calls: 0,
            asked_for: Vec::new(),
            opened: Vec::new(),
            answers: true,
            settles_on: None,
            asked: Vec::new(),
        }
    }
}

/// What the worker hands out.
struct Sink {
    frames: Vec<Frame>,
    replies: Vec<Response>,
    faults: Vec<CoordinatorError>,
}

impl Sink {
    fn new() -> Self {
        Sink { frames: Vec::new(), replies: Vec::new(), faults: Vec::new() }
    }
}

/// Makes the call on the fake device, or takes the next request of the
/// script, and reports the outcome.
fn perform(call: Call, device: &mut FakeDevice, requests: &mut VecDeque<Request>) -> Event {
    match call {
        Call::Receive { .. } => match requests.pop_front() {
            Some(request) => Event::Request(request),
            None => Event::NoRequest,
        },
        Call::OpenDevice(id) => {
            device.open_calls += 1;
            device.opened.push(id.uri);
            if device.opens {
                device.devices_open += 1;
                device.most_devices_open = device.most_devices_open.max(device.devices_open);
            }
            Event::DeviceOpened(device.opens)
        }
        Call::ReadFormat => {
            assert_eq!(device.devices_open, 1);
            Event::FormatRead(device.current)
        }
        Call::SetFormat(format) => {
            assert_eq!(device.devices_open, 1);
            device.asked_for.push(format);
            Event::FormatSet(device.negotiates)
        }
        Call::OpenStream => {
            assert_eq!(device.devices_open, 1);
            if device.streams {
                device.streams_open += 1;
            }
            Event::StreamOpened(device.streams)
        }
        Call::Capture => {
            assert_eq!(device.streams_open, 1);
            Event::Captured(device.frames.pop_front().unwrap_or(None))
        }
        Call::Ask(request) => {
            assert_eq!(device.devices_open, 1);
            let answer = if !device.answers {
                Answer::Failed
            } else {
                match &request {
                    Request::QueryFormats => Answer::Formats(device.negotiates.into_iter().collect()),
                    Request::QueryControls => Answer::Controls(vec![Control::new(
                        1,
                        String::from("gain"),
                        Representation::Boolean,
                    )]),
                    Request::GetFormat => Answer::Format(device.negotiates.expect("a format")),
                    Request::SetFormat(asked) => Answer::Format(device.settles_on.unwrap_or(*asked)),
                    Request::SetControl(_) => Answer::Done,
                    _ => Answer::Failed,
                }
            };
            device.asked.push(match &request {
                Request::QueryFormats => Request::QueryFormats,
                Request::QueryControls => Request::QueryControls,
                Request::GetFormat => Request::GetFormat,
                Request::SetFormat(asked) => Request::SetFormat(*asked),
                Request::SetControl(control) => Request::SetControl(control.clone()),
                Request::StartStream(d) => Request::StartStream(d.clone()),
                Request::StopStream => Request::StopStream,
            });
            Event::Answered(request, answer)
        }
        Call::Halt => panic!("the worker was told to leave its loop"),
    }
}

/// Closes what the reaction names, hands out its output, and returns the
/// call to make next.
fn carry_out(reaction: Reaction, device: &mut FakeDevice, sink: &mut Sink) -> Call {
    match reaction.release {
        Handles::Nothing => {}
        Handles::Device => {
            assert_eq!(device.streams_open, 0);
            assert_eq!(device.devices_open, 1);
            device.devices_open -= 1;
            device.close_calls += 1;
        }
        Handles::StreamAndDevice => {
            assert_eq!(device.streams_open, 1);
            assert_eq!(device.devices_open, 1);
            device.streams_open -= 1;
            device.devices_open -= 1;
            device.close_calls += 1;
        }
    }
    match reaction.output {
        Some(Output::Deliver(frame)) => sink.frames.push(frame),
        Some(Output::Reply(response)) => sink.replies.push(response),
        Some(Output::Fault(error)) => sink.faults.push(error),
        None => {}
    }
    reaction.next
}

/// Runs the worker's loop for the given number of calls.
fn drive(
    coordinator: &mut Coordinator,
    device: &mut FakeDevice,
    requests: &mut VecDeque<Request>,
    sink: &mut Sink,
    calls: usize,
) {
    let mut call = coordinator.first_call();
    for _ in 0..calls {
        let event = perform(call, device, requests);
        let reaction = coordinator.step(event);
        call = carry_out(reaction, device, sink);
    }
}

/// Runs the loop until the script of requests is used up and the coordinator
/// is settled, without capturing.
fn serve_all(
    coordinator: &mut Coordinator,
    device: &mut FakeDevice,
    requests: &mut VecDeque<Request>,
    sink: &mut Sink,
) {
    let mut call = Call::Receive { timeout_ms: 0 };
    loop {
        if let Call::Capture = call {
            call = Call::Receive { timeout_ms: 0 };
        }
        if let Call::Receive { .. } = call {
            if requests.is_empty() {
                return;
            }
        }
        let event = perform(call, device, requests);
        let reaction = coordinator.step(event);
        call = carry_out(reaction, device, sink);
    }
}

fn bgra(width: u32, height: u32) -> Format {
    Format::new(width, height, PixelEncoding::Bgra(32))
}

fn marked_frame(width: u32, height: u32, marker: u8) -> RawFrame {
    RawFrame { width, height, pixels: vec![marker; (4 * width * height) as usize] }
}

fn start(uri: &str) -> Request {
    Request::StartStream(Device::from_uri(uri))
}

fn streaming(coordinator: &mut Coordinator, format: Format) {
    coordinator.step(Event::Request(start("cam0")));
    coordinator.step(Event::DeviceOpened(true));
    coordinator.step(Event::FormatRead(Some(format)));
    coordinator.step(Event::FormatSet(Some(format)));
    coordinator.step(Event::StreamOpened(true));
    assert_eq!(coordinator.stage(), Stage::Streaming(format));
}

fn is_wait(call: &Call, ms: u64) -> bool {
    matches!(call, Call::Receive { timeout_ms } if *timeout_ms == ms)
}

#[test]
fn new_coordinator_is_idle_and_waits() {
    let coordinator = Coordinator::new();
    assert_eq!(coordinator.stage(), Stage::Idle);
    assert!(!coordinator.is_streaming());
    assert_eq!(coordinator.open_handles(), Handles::Nothing);
    assert!(is_wait(&coordinator.first_call(), 100));
    assert_eq!(IDLE_WAIT_MS, 100);
    assert_eq!(STREAMING_WAIT_MS, 0);
}

#[test]
fn start_walks_through_the_device_calls() {
    let mut c = Coordinator::new();
    let r = c.step(Event::Request(start("cam0")));
    assert_eq!(c.stage(), Stage::Opening);
    assert_eq!(r.release, Handles::Nothing);
    assert!(r.output.is_none());
    assert!(matches!(&r.next, Call::OpenDevice(d) if d.uri == "cam0"));

    let r = c.step(Event::DeviceOpened(true));
    assert_eq!(c.stage(), Stage::ReadingFormat);
    assert_eq!(c.open_handles(), Handles::Device);
    assert!(matches!(r.next, Call::ReadFormat));

    let r = c.step(Event::FormatRead(Some(Format::new(640, 480, PixelEncoding::Rgb(24)))));
    assert_eq!(c.stage(), Stage::Negotiating);
    assert!(matches!(r.next, Call::SetFormat(f) if f == bgra(640, 480)));

    let r = c.step(Event::FormatSet(Some(bgra(320, 240))));
    assert_eq!(c.stage(), Stage::OpeningStream(bgra(320, 240)));
    assert!(matches!(r.next, Call::OpenStream));
    assert!(r.output.is_none());

    let r = c.step(Event::StreamOpened(true));
    assert_eq!(c.stage(), Stage::Streaming(bgra(320, 240)));
    assert!(c.is_streaming());
    assert_eq!(c.open_handles(), Handles::StreamAndDevice);
    assert_eq!(r.release, Handles::Nothing);
    assert!(matches!(r.output, Some(Output::Reply(Response::StartStream(Ok(()))))));
    assert!(matches!(r.next, Call::Capture));
    assert!(matches!(c.first_call(), Call::Capture));
}

#[test]
fn device_that_does_not_open_leaves_idle() {
    let mut c = Coordinator::new();
    c.step(Event::Request(start("nowhere")));
    let r = c.step(Event::DeviceOpened(false));
    assert_eq!(c.stage(), Stage::Idle);
    assert_eq!(r.release, Handles::Nothing);
    assert!(matches!(
        r.output,
        Some(Output::Reply(Response::StartStream(Err(CoordinatorError::DeviceOpenFailed))))
    ));
    assert!(is_wait(&r.next, 100));
}

#[test]
fn unreadable_format_closes_the_device() {
    let mut c = Coordinator::new();
    c.step(Event::Request(start("cam0")));
    c.step(Event::DeviceOpened(true));
    let r = c.step(Event::FormatRead(None));
    assert_eq!(c.stage(), Stage::Idle);
    assert_eq!(r.release, Handles::Device);
    assert!(matches!(
        r.output,
        Some(Output::Reply(Response::StartStream(Err(CoordinatorError::FormatNegotiationFailed))))
    ));
}

#[test]
fn mismatched_negotiation_fails_and_closes_the_device() {
    let mut c = Coordinator::new();
    let mut device = FakeDevice::new(Format::new(640, 480, PixelEncoding::Rgba(32)));
    let mut sink = Sink::new();
    let mut requests = VecDeque::from(vec![start("cam0")]);
    serve_all(&mut c, &mut device, &mut requests, &mut sink);
    assert_eq!(c.stage(), Stage::Idle);
    assert_eq!(device.devices_open, 0);
    assert_eq!(device.streams_open, 0);
    assert_eq!(device.open_calls, 1);
    assert_eq!(device.close_calls, 1);
    assert_eq!(device.asked_for, vec![bgra(640, 480)]);
    assert_eq!(sink.replies.len(), 1);
    assert!(matches!(
        sink.replies[0],
        Response::StartStream(Err(CoordinatorError::FormatNegotiationFailed))
    ));
    assert!(sink.frames.is_empty());
}

#[test]
fn refused_format_fails_the_start() {
    let mut c = Coordinator::new();
    c.step(Event::Request(start("cam0")));
    c.step(Event::DeviceOpened(true));
    c.step(Event::FormatRead(Some(bgra(640, 480))));
    let r = c.step(Event::FormatSet(None));
    assert_eq!(c.stage(), Stage::Idle);
    assert_eq!(r.release, Handles::Device);
    assert!(matches!(
        r.output,
        Some(Output::Reply(Response::StartStream(Err(CoordinatorError::FormatNegotiationFailed))))
    ));
}

#[test]
fn bgra_of_another_depth_is_a_mismatch() {
    let mut c = Coordinator::new();
    c.step(Event::Request(start("cam0")));
    c.step(Event::DeviceOpened(true));
    c.step(Event::FormatRead(Some(bgra(640, 480))));
    let r = c.step(Event::FormatSet(Some(Format::new(640, 480, PixelEncoding::Bgra(24)))));
    assert_eq!(c.stage(), Stage::Idle);
    assert_eq!(r.release, Handles::Device);
}

#[test]
fn stream_that_does_not_open_closes_the_device() {
    let mut c = Coordinator::new();
    c.step(Event::Request(start("cam0")));
    c.step(Event::DeviceOpened(true));
    c.step(Event::FormatRead(Some(bgra(640, 480))));
    c.step(Event::FormatSet(Some(bgra(640, 480))));
    let r = c.step(Event::StreamOpened(false));
    assert_eq!(c.stage(), Stage::Idle);
    assert_eq!(r.release, Handles::Device);
    assert!(matches!(
        r.output,
        Some(Output::Reply(Response::StartStream(Err(CoordinatorError::StreamOpenFailed))))
    ));
    assert!(is_wait(&r.next, 100));
}

#[test]
fn stop_twice_ends_idle_without_error() {
    let mut c = Coordinator::new();
    streaming(&mut c, bgra(640, 480));
    let first = c.step(Event::Request(Request::StopStream));
    assert_eq!(c.stage(), Stage::Idle);
    assert_eq!(first.release, Handles::StreamAndDevice);
    assert!(matches!(first.output, Some(Output::Reply(Response::StopStream(Ok(()))))));
    let second = c.step(Event::Request(Request::StopStream));
    assert_eq!(c.stage(), Stage::Idle);
    assert_eq!(second.release, Handles::Nothing);
    assert!(matches!(second.output, Some(Output::Reply(Response::StopStream(Ok(()))))));
    assert!(is_wait(&second.next, 100));
}

#[test]
fn stop_while_idle_is_a_no_op() {
    let mut c = Coordinator::new();
    let r = c.step(Event::Request(Request::StopStream));
    assert_eq!(c.stage(), Stage::Idle);
    assert_eq!(r.release, Handles::Nothing);
    assert!(matches!(r.output, Some(Output::Reply(Response::StopStream(Ok(()))))));
}

#[test]
fn start_then_stop_delivers_no_frame() {
    let mut c = Coordinator::new();
    let mut device = FakeDevice::new(bgra(640, 480));
    device.frames.push_back(Some(marked_frame(640, 480, 1)));
    let mut sink = Sink::new();
    let mut requests = VecDeque::from(vec![start("cam0"), Request::StopStream]);
    serve_all(&mut c, &mut device, &mut requests, &mut sink);
    assert_eq!(c.stage(), Stage::Idle);
    assert!(sink.frames.is_empty());
    assert_eq!(device.devices_open, 0);
    assert_eq!(device.streams_open, 0);
    assert_eq!(device.frames.len(), 1);
    assert_eq!(sink.replies.len(), 2);
    assert!(matches!(sink.replies[0], Response::StartStream(Ok(()))));
    assert!(matches!(sink.replies[1], Response::StopStream(Ok(()))));
}

#[test]
fn frames_arrive_in_capture_order() {
    let mut c = Coordinator::new();
    streaming(&mut c, bgra(2, 2));
    let mut seen = Vec::new();
    for marker in 0u8..50 {
        let r = c.step(Event::Captured(Some(marked_frame(2, 2, marker))));
        assert_eq!(r.release, Handles::Nothing);
        assert!(is_wait(&r.next, 0));
        match r.output {
            Some(Output::Deliver(frame)) => seen.push(frame.pixels[0]),
            _ => panic!("frame {} was not delivered", marker),
        }
        let r = c.step(Event::NoRequest);
        assert!(r.output.is_none());
        assert!(matches!(r.next, Call::Capture));
    }
    assert_eq!(seen, (0u8..50).collect::<Vec<u8>>());
    assert!(c.is_streaming());
}

#[test]
fn failed_capture_stops_the_stream() {
    let mut c = Coordinator::new();
    streaming(&mut c, bgra(2, 2));
    let r = c.step(Event::Captured(None));
    assert_eq!(c.stage(), Stage::Idle);
    assert_eq!(r.release, Handles::StreamAndDevice);
    assert!(matches!(r.output, Some(Output::Fault(CoordinatorError::FrameCaptureFailed))));
    assert!(is_wait(&r.next, 100));
}

#[test]
fn short_frame_stops_the_stream() {
    let mut c = Coordinator::new();
    streaming(&mut c, bgra(2, 2));
    let r = c.step(Event::Captured(Some(RawFrame { width: 2, height: 2, pixels: vec![0; 15] })));
    assert_eq!(c.stage(), Stage::Idle);
    assert_eq!(r.release, Handles::StreamAndDevice);
    assert!(matches!(r.output, Some(Output::Fault(CoordinatorError::FrameCaptureFailed))));
}

#[test]
fn frame_captured_while_idle_is_not_delivered() {
    let mut c = Coordinator::new();
    let r = c.step(Event::Captured(Some(marked_frame(1, 1, 9))));
    assert_eq!(c.stage(), Stage::Idle);
    assert!(r.output.is_none());
    assert_eq!(r.release, Handles::Nothing);
    assert!(is_wait(&r.next, 100));
}

#[test]
fn queries_without_a_device_are_refused() {
    let mut c = Coordinator::new();
    let r = c.step(Event::Request(Request::QueryFormats));
    assert!(matches!(
        r.output,
        Some(Output::Reply(Response::QueryFormats(Err(CoordinatorError::NoDeviceOpen))))
    ));
    let r = c.step(Event::Request(Request::QueryControls));
    assert!(matches!(
        r.output,
        Some(Output::Reply(Response::QueryControls(Err(CoordinatorError::NoDeviceOpen))))
    ));
    let r = c.step(Event::Request(Request::GetFormat));
    assert!(matches!(
        r.output,
        Some(Output::Reply(Response::GetFormat(Err(CoordinatorError::NoDeviceOpen))))
    ));
    let r = c.step(Event::Request(Request::SetFormat(bgra(1, 1))));
    assert!(matches!(
        r.output,
        Some(Output::Reply(Response::SetFormat(Err(CoordinatorError::NoDeviceOpen))))
    ));
    let control = Control::new(1, String::from("gain"), Representation::Boolean);
    let r = c.step(Event::Request(Request::SetControl(control)));
    assert!(matches!(
        r.output,
        Some(Output::Reply(Response::SetControl(Err(CoordinatorError::NoDeviceOpen))))
    ));
    assert_eq!(r.release, Handles::Nothing);
    assert!(is_wait(&r.next, 100));
    assert_eq!(c.stage(), Stage::Idle);
}

#[test]
fn queries_while_streaming_go_to_the_device() {
    let mut c = Coordinator::new();
    streaming(&mut c, bgra(4, 4));
    let r = c.step(Event::Request(Request::QueryControls));
    assert_eq!(c.stage(), Stage::Streaming(bgra(4, 4)));
    assert_eq!(r.release, Handles::Nothing);
    assert!(r.output.is_none());
    assert!(matches!(r.next, Call::Ask(Request::QueryControls)));

    let controls = vec![Control::new(1, String::from("gain"), Representation::Boolean)];
    let r = c.step(Event::Answered(Request::QueryControls, Answer::Controls(controls)));
    assert_eq!(c.stage(), Stage::Streaming(bgra(4, 4)));
    assert_eq!(r.release, Handles::Nothing);
    match r.output {
        Some(Output::Reply(Response::QueryControls(Ok(listed)))) => {
            assert_eq!(listed.len(), 1);
            assert_eq!(listed[0].name, "gain");
        }
        _ => panic!("the controls were not handed on"),
    }
    assert!(matches!(r.next, Call::Capture));
}

#[test]
fn failed_query_is_reported_and_the_stream_goes_on() {
    let mut c = Coordinator::new();
    streaming(&mut c, bgra(4, 4));
    c.step(Event::Request(Request::GetFormat));
    let r = c.step(Event::Answered(Request::GetFormat, Answer::Failed));
    assert_eq!(c.stage(), Stage::Streaming(bgra(4, 4)));
    assert_eq!(r.release, Handles::Nothing);
    assert!(matches!(
        r.output,
        Some(Output::Reply(Response::GetFormat(Err(CoordinatorError::QueryFailed))))
    ));
    assert!(matches!(r.next, Call::Capture));
}

#[test]
fn new_format_is_streamed_if_the_display_takes_it() {
    let mut c = Coordinator::new();
    streaming(&mut c, bgra(4, 4));
    let r = c.step(Event::Request(Request::SetFormat(bgra(8, 8))));
    assert!(matches!(r.next, Call::Ask(Request::SetFormat(f)) if f == bgra(8, 8)));
    let r = c.step(Event::Answered(Request::SetFormat(bgra(8, 8)), Answer::Format(bgra(8, 6))));
    assert_eq!(c.stage(), Stage::Streaming(bgra(8, 6)));
    assert_eq!(r.release, Handles::Nothing);
    assert!(matches!(r.output, Some(Output::Reply(Response::SetFormat(Ok(f)))) if f == bgra(8, 6)));
    assert!(matches!(r.next, Call::Capture));
}

#[test]
fn new_format_that_the_display_does_not_take_stops_the_stream() {
    let mut c = Coordinator::new();
    streaming(&mut c, bgra(4, 4));
    let rgb = Format::new(8, 8, PixelEncoding::Rgb(24));
    c.step(Event::Request(Request::SetFormat(rgb)));
    let r = c.step(Event::Answered(Request::SetFormat(rgb), Answer::Format(rgb)));
    assert_eq!(c.stage(), Stage::Idle);
    assert_eq!(r.release, Handles::StreamAndDevice);
    assert!(matches!(
        r.output,
        Some(Output::Reply(Response::SetFormat(Err(CoordinatorError::FormatNegotiationFailed))))
    ));
    assert!(is_wait(&r.next, 100));
}

#[test]
fn format_that_the_device_refuses_leaves_the_stream_as_it_is() {
    let mut c = Coordinator::new();
    streaming(&mut c, bgra(4, 4));
    c.step(Event::Request(Request::SetFormat(bgra(8, 8))));
    let r = c.step(Event::Answered(Request::SetFormat(bgra(8, 8)), Answer::Failed));
    assert_eq!(c.stage(), Stage::Streaming(bgra(4, 4)));
    assert_eq!(r.release, Handles::Nothing);
    assert!(matches!(
        r.output,
        Some(Output::Reply(Response::SetFormat(Err(CoordinatorError::FormatNegotiationFailed))))
    ));
}

#[test]
fn answer_while_idle_is_dropped() {
    let mut c = Coordinator::new();
    let r = c.step(Event::Answered(Request::GetFormat, Answer::Format(bgra(1, 1))));
    assert_eq!(c.stage(), Stage::Idle);
    assert!(r.output.is_none());
    assert_eq!(r.release, Handles::Nothing);
}

#[test]
fn worker_asks_the_device_and_hands_the_answer_on() {
    let mut c = Coordinator::new();
    let mut device = FakeDevice::new(bgra(2, 2));
    device.frames.push_back(Some(marked_frame(2, 2, 7)));
    let mut sink = Sink::new();
    let mut requests = VecDeque::from(vec![start("cam0"), Request::GetFormat, Request::QueryFormats]);
    serve_all(&mut c, &mut device, &mut requests, &mut sink);
    assert_eq!(c.stage(), Stage::Streaming(bgra(2, 2)));
    assert_eq!(device.asked.len(), 2);
    assert_eq!(sink.replies.len(), 3);
    assert!(matches!(sink.replies[1], Response::GetFormat(Ok(f)) if f == bgra(2, 2)));
    assert!(matches!(&sink.replies[2], Response::QueryFormats(Ok(list)) if list == &vec![bgra(2, 2)]));
}

#[test]
fn start_while_streaming_closes_before_it_opens() {
    let mut c = Coordinator::new();
    let mut device = FakeDevice::new(bgra(4, 4));
    let mut sink = Sink::new();
    let mut requests = VecDeque::from(vec![start("cam0"), start("cam1")]);
    serve_all(&mut c, &mut device, &mut requests, &mut sink);
    assert_eq!(c.stage(), Stage::Streaming(bgra(4, 4)));
    assert_eq!(device.opened, vec![String::from("cam0"), String::from("cam1")]);
    assert_eq!(device.most_devices_open, 1);
    assert_eq!(device.devices_open, 1);
    assert_eq!(device.streams_open, 1);
    assert_eq!(device.close_calls, 1);
}

#[test]
fn request_during_a_start_gives_the_start_up() {
    let mut c = Coordinator::new();
    c.step(Event::Request(start("cam0")));
    c.step(Event::DeviceOpened(true));
    let r = c.step(Event::Request(Request::StopStream));
    assert_eq!(c.stage(), Stage::Idle);
    assert_eq!(r.release, Handles::Device);
    assert!(matches!(
        r.output,
        Some(Output::Reply(Response::StartStream(Err(CoordinatorError::FormatNegotiationFailed))))
    ));
}

#[test]
fn wait_is_short_while_streaming_and_long_while_idle() {
    let mut c = Coordinator::new();
    let r = c.step(Event::NoRequest);
    assert!(is_wait(&r.next, 100));
    streaming(&mut c, bgra(1, 1));
    let r = c.step(Event::Captured(Some(marked_frame(1, 1, 0))));
    assert!(is_wait(&r.next, 0));
}

#[test]
fn interleaved_producers_never_nest_devices() {
    let mut c = Coordinator::new();
    let mut device = FakeDevice::new(bgra(2, 2));
    for marker in 0u8..40 {
        device.frames.push_back(Some(marked_frame(2, 2, marker)));
    }
    let mut sink = Sink::new();
    let mut requests = VecDeque::new();
    for round in 0..10 {
        requests.push_back(start("cam0"));
        requests.push_back(start("cam1"));
        if round % 2 == 0 {
            requests.push_back(Request::StopStream);
            requests.push_back(Request::StopStream);
        }
        requests.push_back(Request::GetFormat);
    }
    requests.push_back(Request::StopStream);
    drive(&mut c, &mut device, &mut requests, &mut sink, 600);
    assert!(requests.is_empty());
    assert_eq!(c.stage(), Stage::Idle);
    assert_eq!(device.most_devices_open, 1);
    assert_eq!(device.devices_open, 0);
    assert_eq!(device.streams_open, 0);
    assert_eq!(device.open_calls, 20);
    assert_eq!(device.close_calls, 20);
}

#[test]
fn end_to_end_three_frames() {
    let devices = vec![Device::from_uri("cam0")];
    assert_eq!(devices.len(), 1);
    assert_eq!(devices[0].uri, "cam0");

    let mut c = Coordinator::new();
    let mut device = FakeDevice::new(bgra(640, 480));
    for marker in 1u8..=3 {
        device.frames.push_back(Some(marked_frame(640, 480, marker)));
    }
    let mut sink = Sink::new();
    let mut requests = VecDeque::from(vec![Request::StartStream(devices[0].clone())]);

    // One wait, four calls to start, then three rounds of capture and wait.
    drive(&mut c, &mut device, &mut requests, &mut sink, 1 + 4 + 6);
    assert_eq!(c.stage(), Stage::Streaming(bgra(640, 480)));
    assert_eq!(device.opened, vec![String::from("cam0")]);
    assert_eq!(sink.frames.len(), 3);
    for (n, frame) in sink.frames.iter().enumerate() {
        assert_eq!(frame.width, 640);
        assert_eq!(frame.height, 480);
        assert_eq!(frame.pixels.len(), 640 * 480 * 4);
        assert_eq!(frame.pixels[0], n as u8 + 1);
    }

    let reaction = c.step(Event::Request(Request::StopStream));
    carry_out(reaction, &mut device, &mut sink);
    assert_eq!(c.stage(), Stage::Idle);
    assert_eq!(device.devices_open, 0);
    assert_eq!(device.streams_open, 0);
    assert_eq!(sink.frames.len(), 3);
    assert!(sink.faults.is_empty());
}

#[test]
fn shutdown_closes_what_is_open_and_halts() {
    let mut c = Coordinator::new();
    streaming(&mut c, bgra(2, 2));
    let r = c.step(Event::Shutdown);
    assert_eq!(c.stage(), Stage::Idle);
    assert_eq!(r.release, Handles::StreamAndDevice);
    assert!(r.output.is_none());
    assert!(matches!(r.next, Call::Halt));

    let r = c.step(Event::Shutdown);
    assert_eq!(r.release, Handles::Nothing);
    assert!(matches!(r.next, Call::Halt));

    c.step(Event::Request(start("cam0")));
    c.step(Event::DeviceOpened(true));
    let r = c.step(Event::Shutdown);
    assert_eq!(c.stage(), Stage::Idle);
    assert_eq!(r.release, Handles::Device);
    assert!(r.output.is_none());
}
