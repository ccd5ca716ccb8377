use vnc::{
    client_init, ClientMsg, Handshake, HandshakeAction, HandshakeInput, IoError, IoErrorKind,
    Machine, PixelFormat, Rect, Screen, ServerInit, Session, VncEncoding, VncError, VncEvent,
};

fn format(bits_per_pixel: u8) -> PixelFormat {
    PixelFormat {
        bits_per_pixel,
        depth: 24,
        big_endian_flag: 0,
        true_color_flag: 1,
        red_max: 255,
        green_max: 255,
        blue_max: 255,
        red_shift: 16,
        green_shift: 8,
        blue_shift: 0,
    }
}

fn encodings() -> Vec<VncEncoding> {
    vec![VncEncoding::Tight, VncEncoding::Zrle, VncEncoding::Raw]
}

fn drive(
    (mut machine, first): (Handshake, HandshakeAction),
    inputs: Vec<HandshakeInput>,
) -> (Handshake, Vec<HandshakeAction>) {
    let mut actions = vec![first];
    for input in inputs {
        let (next, action) = machine.step(input).expect("an answer");
        machine = next;
        actions.push(action);
    }
    (machine, actions)
}

fn session(pixel_format: PixelFormat) -> Session {
    Session {
        name: b"desk".to_vec(),
        screen: Screen { width: 1920, height: 1080 },
        pixel_format,
    }
}

fn first_request() -> ClientMsg {
    let whole = Rect { x: 0, y: 0, width: 1920, height: 1080 };
    ClientMsg::FramebufferUpdateRequest(whole, 0)
}

#[test]
fn first_byte_says_whether_the_screen_is_shared() {
    assert_eq!(client_init(true), 1);
    assert_eq!(client_init(false), 0);
    assert_eq!(Handshake::new(true, None, vec![]).1, HandshakeAction::WriteByte(1));
    assert_eq!(Handshake::new(false, None, vec![]).1, HandshakeAction::WriteByte(0));
}

#[test]
fn client_without_a_format_takes_the_servers() {
    let (end, actions) = drive(
        Handshake::new(true, None, encodings()),
        vec![
            HandshakeInput::Done,
            HandshakeInput::U16(1920),
            HandshakeInput::U16(1080),
            HandshakeInput::Done,
            HandshakeInput::PixelFormat(format(32)),
            HandshakeInput::Done,
            HandshakeInput::U32(4),
            HandshakeInput::Bytes(b"desk".to_vec()),
            HandshakeInput::Done,
            HandshakeInput::Done,
        ],
    );
    let screen = Screen { width: 1920, height: 1080 };
    assert_eq!(
        actions,
        vec![
            HandshakeAction::WriteByte(1),
            HandshakeAction::ReadU16,
            HandshakeAction::ReadU16,
            HandshakeAction::Emit(VncEvent::SetResolution(screen)),
            HandshakeAction::ReadPixelFormat,
            HandshakeAction::Emit(VncEvent::SetPixelFormat(format(32))),
            HandshakeAction::ReadU32,
            HandshakeAction::ReadBytes(4),
            HandshakeAction::Write(ClientMsg::SetEncodings(encodings())),
            HandshakeAction::Queue(first_request()),
            HandshakeAction::Ready(session(format(32))),
        ]
    );
    assert_eq!(end, Handshake::Ended);
}

#[test]
fn client_with_a_format_tells_the_server() {
    let (end, actions) = drive(
        Handshake::new(false, Some(format(8)), encodings()),
        vec![
            HandshakeInput::Done,
            HandshakeInput::U16(1920),
            HandshakeInput::U16(1080),
            HandshakeInput::Done,
            HandshakeInput::PixelFormat(format(32)),
            HandshakeInput::U32(4),
            HandshakeInput::Bytes(b"desk".to_vec()),
            HandshakeInput::Done,
            HandshakeInput::Done,
            HandshakeInput::Done,
        ],
    );
    let screen = Screen { width: 1920, height: 1080 };
    assert_eq!(
        actions,
        vec![
            HandshakeAction::WriteByte(0),
            HandshakeAction::ReadU16,
            HandshakeAction::ReadU16,
            HandshakeAction::Emit(VncEvent::SetResolution(screen)),
            HandshakeAction::ReadPixelFormat,
            HandshakeAction::ReadU32,
            HandshakeAction::ReadBytes(4),
            HandshakeAction::Write(ClientMsg::SetPixelFormat(format(8))),
            HandshakeAction::Write(ClientMsg::SetEncodings(encodings())),
            HandshakeAction::Queue(first_request()),
            HandshakeAction::Ready(session(format(8))),
        ]
    );
    assert_eq!(end, Handshake::Ended);
}

#[test]
fn introduction_of_the_server_gives_a_session() {
    let mut machine = ServerInit::new(Some(format(16)));
    let mut last = HandshakeAction::ReadU16;
    for input in [
        HandshakeInput::U16(1920),
        HandshakeInput::U16(1080),
        HandshakeInput::Done,
        HandshakeInput::PixelFormat(format(32)),
        HandshakeInput::U32(4),
        HandshakeInput::Bytes(b"desk".to_vec()),
        HandshakeInput::Done,
    ] {
        let (next, action) = machine.step(input).unwrap();
        machine = next;
        last = action;
    }
    assert_eq!(last, HandshakeAction::Ready(session(format(16))));
    assert_eq!(machine, ServerInit::Ended);
}

#[test]
fn handshake_fails_with_the_error_of_whatever_failed() {
    let answers = || {
        vec![
            HandshakeInput::Done,
            HandshakeInput::U16(1),
            HandshakeInput::U16(1),
            HandshakeInput::Done,
            HandshakeInput::PixelFormat(format(32)),
            HandshakeInput::U32(0),
            HandshakeInput::Bytes(vec![]),
            HandshakeInput::Done,
            HandshakeInput::Done,
        ]
    };
    for given in 0..answers().len() + 1 {
        let mut inputs = answers();
        inputs.truncate(given);
        let (machine, _) = drive(Handshake::new(true, Some(format(8)), vec![]), inputs);
        let error = || {
            VncError::IoError(IoError {
                kind: IoErrorKind::UnexpectedEof,
                message: "early eof".to_string(),
            })
        };
        let (machine, action) = machine.step(HandshakeInput::Failed(error())).unwrap();
        assert_eq!(action, HandshakeAction::Fail(error()));
        assert!(machine.step(HandshakeInput::Done).is_none());
    }
}

#[test]
fn handshake_takes_no_answer_out_of_place() {
    let (machine, _) = Handshake::new(true, None, vec![]);
    assert!(machine.step(HandshakeInput::U16(1)).is_none());
    let (machine, _) = drive(Handshake::new(true, None, vec![]), vec![HandshakeInput::Done]);
    assert!(machine.step(HandshakeInput::Done).is_none());
}

#[test]
fn name_must_have_the_announced_length() {
    let name = |bytes: Vec<u8>| {
        let named = ServerInit::Name {
            sends_own: false,
            screen: Screen { width: 1920, height: 1080 },
            pixel_format: format(32),
            length: 4,
        };
        named.step(HandshakeInput::Bytes(bytes))
    };
    assert!(name(b"des".to_vec()).is_none());
    assert!(name(b"desks".to_vec()).is_none());
    let (_, action) = name(b"desk".to_vec()).unwrap();
    assert_eq!(action, HandshakeAction::Ready(session(format(32))));
}

#[test]
fn name_is_read_as_utf8() {
    let mut session = session(format(32));
    assert_eq!(session.read_name(), "desk");
    session.name = "Büro ✓".as_bytes().to_vec();
    assert_eq!(session.read_name(), "Büro ✓");
    session.name = Vec::new();
    assert_eq!(session.read_name(), "");
}

#[test]
fn what_is_no_utf8_in_a_name_is_replaced() {
    let mut session = session(format(32));
    session.name = vec![b'a', 0xff, b'b'];
    assert_eq!(session.read_name(), "a\u{fffd}b");
}
