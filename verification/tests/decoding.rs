use tokio::sync::oneshot;
use vnc::{
    failure_event, Decoder, IoError, IoErrorKind, Machine, PixelFormat, ReadAction, ReadInput,
    ReadLoop, ReadPhase, Rect, Screen, ServerMsg, StopPoll, VncError, VncEvent,
};

fn format() -> PixelFormat {
    PixelFormat {
        bits_per_pixel: 32,
        depth: 24,
        big_endian_flag: 0,
        true_color_flag: 1,
        red_max: 255,
        green_max: 255,
        blue_max: 255,
        red_shift: 16,
        green_shift: 8,
        blue_shift: 0,
    }
}

fn header(rect: Rect, number: i32) -> ReadInput {
    let mut bytes = [0_u8; 12];
    bytes[0..2].copy_from_slice(&rect.x.to_be_bytes());
    bytes[2..4].copy_from_slice(&rect.y.to_be_bytes());
    bytes[4..6].copy_from_slice(&rect.width.to_be_bytes());
    bytes[6..8].copy_from_slice(&rect.height.to_be_bytes());
    bytes[8..12].copy_from_slice(&number.to_be_bytes());
    ReadInput::Header(bytes)
}

fn rect() -> Rect {
    Rect { x: 10, y: 20, width: 300, height: 400 }
}

fn update(count: u16) -> ReadInput {
    ReadInput::Message(ServerMsg::FramebufferUpdate(count))
}

fn drive(mut machine: ReadLoop, inputs: Vec<ReadInput>) -> (ReadLoop, Vec<ReadAction>) {
    let mut actions = Vec::new();
    for input in inputs {
        let (next, action) = machine.step(input).expect("an answer");
        machine = next;
        actions.push(action);
    }
    (machine, actions)
}

fn waiting_for_message() -> ReadLoop {
    drive(ReadLoop::new(format()), vec![ReadInput::Stop(StopPoll::Empty)]).0
}

#[test]
fn loop_reads_a_message_if_nobody_stops_it() {
    let (machine, actions) =
        drive(ReadLoop::new(format()), vec![ReadInput::Stop(StopPoll::Empty)]);
    assert_eq!(actions, vec![ReadAction::ReadMessage]);
    assert_eq!(machine.phase, ReadPhase::Message);
}

#[test]
fn loop_ends_if_it_is_stopped_or_left_alone() {
    for poll in [StopPoll::Requested, StopPoll::Closed] {
        let (machine, actions) = drive(ReadLoop::new(format()), vec![ReadInput::Stop(poll)]);
        assert_eq!(actions, vec![ReadAction::Finish(Ok(()))]);
        assert_eq!(machine.phase, ReadPhase::Ended);
        assert!(machine.step(ReadInput::Stop(StopPoll::Empty)).is_none());
    }
}

#[test]
fn update_is_taken_rectangle_by_rectangle() {
    let (machine, actions) = drive(
        waiting_for_message(),
        vec![
            update(3),
            header(rect(), 0),
            ReadInput::Done,
            header(rect(), 1),
            ReadInput::U16(5),
            ReadInput::U16(6),
            ReadInput::Done,
            header(rect(), -223),
            ReadInput::Done,
        ],
    );
    let source = Rect { x: 5, y: 6, width: 300, height: 400 };
    let size = Screen { width: 300, height: 400 };
    assert_eq!(
        actions,
        vec![
            ReadAction::ReadHeader,
            ReadAction::Decode(Decoder::Raw, format(), rect()),
            ReadAction::ReadHeader,
            ReadAction::ReadU16,
            ReadAction::ReadU16,
            ReadAction::Emit(VncEvent::Copy(rect(), source)),
            ReadAction::ReadHeader,
            ReadAction::Emit(VncEvent::SetResolution(size)),
            ReadAction::PollStop,
        ]
    );
    assert_eq!(machine.phase, ReadPhase::Polling);
}

#[test]
fn last_rectangle_ends_an_update_early() {
    let (machine, actions) = drive(
        waiting_for_message(),
        vec![update(65535), header(rect(), 16), ReadInput::Done, header(rect(), -224)],
    );
    assert_eq!(
        actions,
        vec![
            ReadAction::ReadHeader,
            ReadAction::Decode(Decoder::Zrle, format(), rect()),
            ReadAction::ReadHeader,
            ReadAction::PollStop,
        ]
    );
    assert_eq!(machine.phase, ReadPhase::Polling);
}

#[test]
fn update_of_no_rectangles_is_over_at_once() {
    let (_, actions) = drive(waiting_for_message(), vec![update(0)]);
    assert_eq!(actions, vec![ReadAction::PollStop]);
}

#[test]
fn encodings_go_to_their_decoders() {
    let decoders = [
        (0, Decoder::Raw),
        (7, Decoder::Tight),
        (15, Decoder::Trle),
        (16, Decoder::Zrle),
        (-239, Decoder::Cursor),
        (-32, Decoder::Tight),
        (-28, Decoder::Tight),
        (-26, Decoder::Tight),
        (-23, Decoder::Tight),
    ];
    for (number, decoder) in decoders {
        let (_, actions) = drive(waiting_for_message(), vec![update(1), header(rect(), number)]);
        assert_eq!(actions[1], ReadAction::Decode(decoder, format(), rect()));
    }
}

#[test]
fn bell_and_text_are_told() {
    let (_, actions) = drive(
        waiting_for_message(),
        vec![
            ReadInput::Message(ServerMsg::Bell),
            ReadInput::Done,
            ReadInput::Stop(StopPoll::Empty),
            ReadInput::Message(ServerMsg::ServerCutText("copied".to_string())),
            ReadInput::Done,
            ReadInput::Stop(StopPoll::Requested),
        ],
    );
    assert_eq!(
        actions,
        vec![
            ReadAction::Emit(VncEvent::Bell),
            ReadAction::PollStop,
            ReadAction::ReadMessage,
            ReadAction::Emit(VncEvent::Text("copied".to_string())),
            ReadAction::PollStop,
            ReadAction::Finish(Ok(())),
        ]
    );
}

#[test]
fn failure_ends_the_loop_with_its_error() {
    let before: Vec<Vec<ReadInput>> = vec![
        vec![],
        vec![update(2)],
        vec![update(2), header(rect(), 1)],
        vec![update(2), header(rect(), 1), ReadInput::U16(1)],
        vec![update(2), header(rect(), 7)],
        vec![ReadInput::Message(ServerMsg::Bell)],
    ];
    for inputs in before {
        let (machine, _) = drive(waiting_for_message(), inputs);
        let failed = ReadInput::Failed(VncError::ChannelClosed);
        let (machine, action) = machine.step(failed).unwrap();
        assert_eq!(action, ReadAction::Finish(Err(VncError::ChannelClosed)));
        assert_eq!(machine.phase, ReadPhase::Ended);
        assert!(machine.step(ReadInput::Done).is_none());
    }
}

#[test]
fn unknown_encoding_ends_the_loop() {
    let (_, actions) = drive(waiting_for_message(), vec![update(1), header(rect(), 5)]);
    assert_eq!(actions[1], ReadAction::Finish(Err(VncError::UnknownEncoding(5))));
}

#[test]
fn answers_out_of_place_are_not_taken() {
    assert!(ReadLoop::new(format()).step(ReadInput::Done).is_none());
    assert!(ReadLoop::new(format()).step(ReadInput::Failed(VncError::ChannelClosed)).is_none());
    assert!(waiting_for_message().step(ReadInput::U16(1)).is_none());
    assert!(waiting_for_message().step(ReadInput::Stop(StopPoll::Empty)).is_none());
}

#[test]
fn decoders_always_get_the_first_pixel_format() {
    let mut inputs = Vec::new();
    for _ in 0..10 {
        inputs.push(update(1));
        inputs.push(header(rect(), 7));
        inputs.push(ReadInput::Done);
        inputs.push(ReadInput::Stop(StopPoll::Empty));
    }
    let (machine, actions) = drive(waiting_for_message(), inputs);
    assert_eq!(machine.pixel_format, format());
    let decoded = ReadAction::Decode(Decoder::Tight, format(), rect());
    assert_eq!(actions.iter().filter(|action| **action == decoded).count(), 10);
}

#[test]
fn loop_polls_its_stop_channel() {
    let (stop, mut stop_ch) = oneshot::channel();
    let (machine, action) = ReadLoop::new(format()).poll_stop(&mut stop_ch).unwrap();
    assert_eq!(action, ReadAction::ReadMessage);
    assert!(machine.poll_stop(&mut stop_ch).is_none());
    stop.send(()).unwrap();
    let (machine, action) = ReadLoop::new(format()).poll_stop(&mut stop_ch).unwrap();
    assert_eq!(action, ReadAction::Finish(Ok(())));
    assert_eq!(machine.phase, ReadPhase::Ended);
}

#[test]
fn loop_ends_if_its_stop_channel_is_dropped() {
    let (stop, mut stop_ch) = oneshot::channel();
    drop(stop);
    let (_, action) = ReadLoop::new(format()).poll_stop(&mut stop_ch).unwrap();
    assert_eq!(action, ReadAction::Finish(Ok(())));
}

#[test]
fn end_of_the_connection_is_not_told_as_an_error() {
    let ended = VncError::IoError(IoError {
        kind: IoErrorKind::UnexpectedEof,
        message: "early eof".to_string(),
    });
    assert_eq!(failure_event(ended), None);
}

#[test]
fn other_errors_are_told_by_their_text() {
    let refused = VncError::IoError(IoError {
        kind: IoErrorKind::Other,
        message: "connection reset".to_string(),
    });
    let told = |text: &str| Some(VncEvent::Error(text.to_string()));
    assert_eq!(failure_event(refused), told("connection reset"));
    assert_eq!(failure_event(VncError::General("bad image".to_string())), told("bad image"));
    assert_eq!(failure_event(VncError::ChannelClosed), told("channel closed"));
    assert_eq!(failure_event(VncError::UnknownEncoding(5)), told("unknown encoding"));
    assert_eq!(failure_event(VncError::ClientNotRunning), told("the client is not running"));
}

#[test]
fn loop_stops_while_it_waits_for_a_message() {
    for poll in [StopPoll::Requested, StopPoll::Closed] {
        let waiting = waiting_for_message();
        assert_eq!(waiting.phase, ReadPhase::Message);
        let (end, action) = waiting.step(ReadInput::Stop(poll)).unwrap();
        assert_eq!(end.phase, ReadPhase::Ended);
        assert_eq!(action, ReadAction::Finish(Ok(())));
    }
    assert_eq!(waiting_for_message().step(ReadInput::Stop(StopPoll::Empty)), None);
}

#[test]
fn loop_takes_an_update_to_its_end_before_it_stops() {
    let (inside, _) = drive(waiting_for_message(), vec![update(1)]);
    assert_eq!(inside.step(ReadInput::Stop(StopPoll::Requested)), None);
    let stopped = ReadInput::Stop(StopPoll::Requested);
    let (end, actions) = drive(inside, vec![header(rect(), 0), ReadInput::Done, stopped]);
    assert_eq!(end.phase, ReadPhase::Ended);
    assert_eq!(actions.last(), Some(&ReadAction::Finish(Ok(()))));
}
