//! The handshake, from the first byte of the client to its first request.
use crate::machine::{run, Machine};
use crate::outside::text_from_utf8_lossy;
use crate::outside::utf8_lossy;
use crate::types::{ClientMsg, PixelFormat, Rect, Screen, VncEncoding, VncError, VncEvent};
use vstd::prelude::*;

verus! {

/// The byte with which the client begins: 1 if the screen may be shared with
/// other clients, and 0 if they are to be disconnected.
pub fn client_init(shared: bool) -> (byte: u8)
    ensures
        byte == if shared { 1u8 } else { 0u8 },
{
    if shared {
        1
    } else {
        0
    }
}

/// What the handshake has settled.
#[derive(Debug, PartialEq, Eq)]
pub struct Session {
    /// The name of the screen, as the server sent it.
    pub name: Vec<u8>,
    pub screen: Screen,
    /// The format that pixels come in.
    pub pixel_format: PixelFormat,
}

impl Session {
    /// The name of the screen, read as UTF-8.
    pub open spec fn name_text(self) -> Seq<char> {
        utf8_lossy(self.name@)
    }

    /// Reads the name of the screen as UTF-8. What is no UTF-8 in it is
    /// replaced, so that every name has a text.
    pub fn read_name(&self) -> (text: String)
        ensures
            text@ == self.name_text(),
            vstd::utf8::valid_utf8(self.name@) ==> text@ == vstd::utf8::decode_utf8(self.name@),
    {
        text_from_utf8_lossy(self.name.as_slice())
    }
}

/// What the handshake asks for.
#[derive(Debug, PartialEq, Eq)]
pub enum HandshakeAction {
    /// Write a byte to the server.
    WriteByte(u8),
    /// Read a number of 16 bits.
    ReadU16,
    /// Read a number of 32 bits.
    ReadU32,
    /// Read a pixel format.
    ReadPixelFormat,
    /// Read exactly this many bytes.
    ReadBytes(usize),
    /// Hand an event to the user.
    Emit(VncEvent),
    /// Write a message to the server.
    Write(ClientMsg),
    /// Queue a message for the time when the connection runs.
    Queue(ClientMsg),
    /// The handshake is complete.
    Ready(Session),
    /// The handshake has failed.
    Fail(VncError),
}

/// The answers to what the handshake asks for.
#[derive(Debug, PartialEq, Eq)]
pub enum HandshakeInput {
    /// What was to be written, emitted or queued is.
    Done,
    U16(u16),
    U32(u32),
    PixelFormat(PixelFormat),
    Bytes(Vec<u8>),
    /// What was asked for has failed.
    Failed(VncError),
}

/// The part of the handshake in which the server introduces itself.
///
/// | bytes       | type         | meaning                      |
/// |-------------|--------------|------------------------------|
/// | 2           | U16          | framebuffer-width in pixels  |
/// | 2           | U16          | framebuffer-height in pixels |
/// | 16          | PIXEL_FORMAT | server-pixel-format          |
/// | 4           | U32          | name-length                  |
/// | name-length | U8 array     | name-string                  |
///
/// A client that has no pixel format of its own takes the server's and tells
/// its user; one that has tells the server, after the name was read.
#[derive(Debug, PartialEq, Eq)]
pub enum ServerInit {
    Width { own: Option<PixelFormat> },
    Height { own: Option<PixelFormat>, width: u16 },
    /// The user is being told the size of the screen.
    Telling { own: Option<PixelFormat>, screen: Screen },
    Format { own: Option<PixelFormat>, screen: Screen },
    /// The user is being told the server's pixel format.
    TellingFormat { screen: Screen, pixel_format: PixelFormat },
    NameLength { sends_own: bool, screen: Screen, pixel_format: PixelFormat },
    Name { sends_own: bool, screen: Screen, pixel_format: PixelFormat, length: usize },
    /// The server is being told the client's pixel format.
    SendingFormat { session: Session },
    Ended,
}

impl ServerInit {
    /// Begins; the first action is `HandshakeAction::ReadU16`.
    pub fn new(own: Option<PixelFormat>) -> (init: ServerInit)
        ensures
            init == (ServerInit::Width { own }),
    {
        ServerInit::Width { own }
    }

    /// Where the introduction stands once a pixel format is agreed on and the
    /// user knows of it, if they need to.
    pub open spec fn before_name(
        sends_own: bool,
        screen: Screen,
        pixel_format: PixelFormat,
    ) -> (ServerInit, HandshakeAction) {
        (ServerInit::NameLength { sends_own, screen, pixel_format }, HandshakeAction::ReadU32)
    }
}

impl Machine for ServerInit {
    type Input = HandshakeInput;

    type Action = HandshakeAction;

    open spec fn next(self, input: HandshakeInput) -> Option<(ServerInit, HandshakeAction)> {
        if self is Ended {
            None
        } else if let HandshakeInput::Failed(error) = input {
            Some((ServerInit::Ended, HandshakeAction::Fail(error)))
        } else {
            match self {
                ServerInit::Width { own } => match input {
                    HandshakeInput::U16(width) => Some(
                        (ServerInit::Height { own, width }, HandshakeAction::ReadU16),
                    ),
                    _ => None,
                },
                ServerInit::Height { own, width } => match input {
                    HandshakeInput::U16(height) => {
                        let screen = Screen { width, height };
                        let told = VncEvent::SetResolution(screen);
                        Some((ServerInit::Telling { own, screen }, HandshakeAction::Emit(told)))
                    },
                    _ => None,
                },
                ServerInit::Telling { own, screen } => match input {
                    HandshakeInput::Done => Some(
                        (ServerInit::Format { own, screen }, HandshakeAction::ReadPixelFormat),
                    ),
                    _ => None,
                },
                ServerInit::Format { own, screen } => match input {
                    HandshakeInput::PixelFormat(servers) => match own {
                        Some(pixel_format) => Some(
                            ServerInit::before_name(true, screen, pixel_format),
                        ),
                        None => Some(
                            (
                                ServerInit::TellingFormat { screen, pixel_format: servers },
                                HandshakeAction::Emit(VncEvent::SetPixelFormat(servers)),
                            ),
                        ),
                    },
                    _ => None,
                },
                ServerInit::TellingFormat { screen, pixel_format } => match input {
                    HandshakeInput::Done => Some(
                        ServerInit::before_name(false, screen, pixel_format),
                    ),
                    _ => None,
                },
                ServerInit::NameLength { sends_own, screen, pixel_format } => match input {
                    HandshakeInput::U32(length) => Some(
                        (
                            ServerInit::Name {
                                sends_own,
                                screen,
                                pixel_format,
                                length: length as usize,
                            },
                            HandshakeAction::ReadBytes(length as usize),
                        ),
                    ),
                    _ => None,
                },
                ServerInit::Name { sends_own, screen, pixel_format, length } => match input {
                    HandshakeInput::Bytes(name) => {
                        let session = Session { name, screen, pixel_format };
                        if name@.len() != length {
                            None
                        } else if sends_own {
                            let told = ClientMsg::SetPixelFormat(pixel_format);
                            Some(
                                (
                                    ServerInit::SendingFormat { session },
                                    HandshakeAction::Write(told),
                                ),
                            )
                        } else {
                            Some((ServerInit::Ended, HandshakeAction::Ready(session)))
                        }
                    },
                    _ => None,
                },
                ServerInit::SendingFormat { session } => match input {
                    HandshakeInput::Done => Some(
                        (ServerInit::Ended, HandshakeAction::Ready(session)),
                    ),
                    _ => None,
                },
                ServerInit::Ended => None,
            }
        }
    }

    fn step(self, input: HandshakeInput) -> (taken: Option<(ServerInit, HandshakeAction)>) {
        match (self, input) {
            (ServerInit::Ended, _) => None,
            (_, HandshakeInput::Failed(error)) => {
                Some((ServerInit::Ended, HandshakeAction::Fail(error)))
            },
            (ServerInit::Width { own }, HandshakeInput::U16(width)) => {
                Some((ServerInit::Height { own, width }, HandshakeAction::ReadU16))
            },
            (ServerInit::Height { own, width }, HandshakeInput::U16(height)) => {
                let screen = Screen { width, height };
                let told = VncEvent::SetResolution(screen);
                Some((ServerInit::Telling { own, screen }, HandshakeAction::Emit(told)))
            },
            (ServerInit::Telling { own, screen }, HandshakeInput::Done) => {
                Some((ServerInit::Format { own, screen }, HandshakeAction::ReadPixelFormat))
            },
            (ServerInit::Format { own, screen }, HandshakeInput::PixelFormat(servers)) => {
                match own {
                    Some(pixel_format) => {
                        let next = ServerInit::NameLength { sends_own: true, screen, pixel_format };
                        Some((next, HandshakeAction::ReadU32))
                    },
                    None => {
                        let next = ServerInit::TellingFormat { screen, pixel_format: servers };
                        let told = VncEvent::SetPixelFormat(servers);
                        Some((next, HandshakeAction::Emit(told)))
                    },
                }
            },
            (ServerInit::TellingFormat { screen, pixel_format }, HandshakeInput::Done) => {
                let next = ServerInit::NameLength { sends_own: false, screen, pixel_format };
                Some((next, HandshakeAction::ReadU32))
            },
            (
                ServerInit::NameLength { sends_own, screen, pixel_format },
                HandshakeInput::U32(announced),
            ) => {
                let length: usize = announced as usize;
                let next = ServerInit::Name { sends_own, screen, pixel_format, length };
                Some((next, HandshakeAction::ReadBytes(length)))
            },
            (
                ServerInit::Name { sends_own, screen, pixel_format, length },
                HandshakeInput::Bytes(name),
            ) => {
                if name.len() != length {
                    return None;
                }
                let session = Session { name, screen, pixel_format };
                if sends_own {
                    let told = ClientMsg::SetPixelFormat(pixel_format);
                    Some((ServerInit::SendingFormat { session }, HandshakeAction::Write(told)))
                } else {
                    Some((ServerInit::Ended, HandshakeAction::Ready(session)))
                }
            },
            (ServerInit::SendingFormat { session }, HandshakeInput::Done) => {
                Some((ServerInit::Ended, HandshakeAction::Ready(session)))
            },
            (_, _) => None,
        }
    }
}

/// The whole handshake: the client's first byte, the introduction of the
/// server, the encodings that the client knows, and the request for the first
/// picture of the whole screen.
#[derive(Debug, PartialEq, Eq)]
pub enum Handshake {
    ClientInit { own: Option<PixelFormat>, encodings: Vec<VncEncoding> },
    ServerInit { init: ServerInit, encodings: Vec<VncEncoding> },
    /// The server is being told the encodings.
    SendingEncodings { session: Session },
    /// The request for the first picture is being queued.
    Requesting { session: Session },
    Ended,
}

impl Handshake {
    /// The request for the first picture: the whole screen, changed or not.
    pub open spec fn first_request(screen: Screen) -> ClientMsg {
        ClientMsg::FramebufferUpdateRequest(screen.whole(), 0)
    }

    /// Begins the handshake.
    pub fn new(
        shared: bool,
        pixel_format: Option<PixelFormat>,
        encodings: Vec<VncEncoding>,
    ) -> (begun: (Handshake, HandshakeAction))
        ensures
            begun.0 == (Handshake::ClientInit { own: pixel_format, encodings }),
            begun.1 == HandshakeAction::WriteByte(if shared { 1u8 } else { 0u8 }),
    {
        let first = HandshakeAction::WriteByte(client_init(shared));
        (Handshake::ClientInit { own: pixel_format, encodings }, first)
    }
}

impl Machine for Handshake {
    type Input = HandshakeInput;

    type Action = HandshakeAction;

    open spec fn next(self, input: HandshakeInput) -> Option<(Handshake, HandshakeAction)> {
        if self is Ended {
            None
        } else if let HandshakeInput::Failed(error) = input {
            Some((Handshake::Ended, HandshakeAction::Fail(error)))
        } else {
            match self {
                Handshake::ClientInit { own, encodings } => match input {
                    HandshakeInput::Done => {
                        let init = ServerInit::Width { own };
                        Some((Handshake::ServerInit { init, encodings }, HandshakeAction::ReadU16))
                    },
                    _ => None,
                },
                Handshake::ServerInit { init, encodings } => match init.next(input) {
                    Some((_, HandshakeAction::Ready(session))) => {
                        let told = ClientMsg::SetEncodings(encodings);
                        Some(
                            (
                                Handshake::SendingEncodings { session },
                                HandshakeAction::Write(told),
                            ),
                        )
                    },
                    Some((init, action)) => Some(
                        (Handshake::ServerInit { init, encodings }, action),
                    ),
                    None => None,
                },
                Handshake::SendingEncodings { session } => match input {
                    HandshakeInput::Done => {
                        let request = Handshake::first_request(session.screen);
                        Some((Handshake::Requesting { session }, HandshakeAction::Queue(request)))
                    },
                    _ => None,
                },
                Handshake::Requesting { session } => match input {
                    HandshakeInput::Done => Some(
                        (Handshake::Ended, HandshakeAction::Ready(session)),
                    ),
                    _ => None,
                },
                Handshake::Ended => None,
            }
        }
    }

    fn step(self, input: HandshakeInput) -> (taken: Option<(Handshake, HandshakeAction)>) {
        match (self, input) {
            (Handshake::Ended, _) => None,
            (_, HandshakeInput::Failed(error)) => {
                Some((Handshake::Ended, HandshakeAction::Fail(error)))
            },
            (Handshake::ClientInit { own, encodings }, HandshakeInput::Done) => {
                let init = ServerInit::new(own);
                Some((Handshake::ServerInit { init, encodings }, HandshakeAction::ReadU16))
            },
            (Handshake::ServerInit { init, encodings }, answer) => match init.step(answer) {
                Some((_, HandshakeAction::Ready(session))) => {
                    let told = ClientMsg::SetEncodings(encodings);
                    Some((Handshake::SendingEncodings { session }, HandshakeAction::Write(told)))
                },
                Some((init, action)) => Some((Handshake::ServerInit { init, encodings }, action)),
                None => None,
            },
            (Handshake::SendingEncodings { session }, HandshakeInput::Done) => {
                let whole = session.screen.full_rect();
                let request = ClientMsg::FramebufferUpdateRequest(whole, 0);
                Some((Handshake::Requesting { session }, HandshakeAction::Queue(request)))
            },
            (Handshake::Requesting { session }, HandshakeInput::Done) => {
                Some((Handshake::Ended, HandshakeAction::Ready(session)))
            },
            (_, _) => None,
        }
    }
}

/// What a handshake in which nothing fails is answered: the client's format is
/// `own`, and the rest is what the server sends.
pub open spec fn answers(
    own: Option<PixelFormat>,
    screen: Screen,
    servers: PixelFormat,
    length: u32,
    name: Vec<u8>,
) -> Seq<HandshakeInput> {
    if own is Some {
        seq![
            HandshakeInput::Done,
            HandshakeInput::U16(screen.width),
            HandshakeInput::U16(screen.height),
            HandshakeInput::Done,
            HandshakeInput::PixelFormat(servers),
            HandshakeInput::U32(length),
            HandshakeInput::Bytes(name),
            HandshakeInput::Done,
            HandshakeInput::Done,
            HandshakeInput::Done,
        ]
    } else {
        seq![
            HandshakeInput::Done,
            HandshakeInput::U16(screen.width),
            HandshakeInput::U16(screen.height),
            HandshakeInput::Done,
            HandshakeInput::PixelFormat(servers),
            HandshakeInput::Done,
            HandshakeInput::U32(length),
            HandshakeInput::Bytes(name),
            HandshakeInput::Done,
            HandshakeInput::Done,
        ]
    }
}

/// A client without a pixel format of its own: the user is told the size of the
/// screen and the server's format, the server is told the encodings, a picture
/// of the whole screen is requested, and pixels come in the server's format.
pub proof fn handshake_takes_servers_format(
    encodings: Vec<VncEncoding>,
    screen: Screen,
    servers: PixelFormat,
    length: u32,
    name: Vec<u8>,
)
    requires
        name@.len() == length,
    ensures
        run(
            (Handshake::ClientInit { own: None, encodings }),
            seq![
                HandshakeInput::Done,
                HandshakeInput::U16(screen.width),
                HandshakeInput::U16(screen.height),
                HandshakeInput::Done,
                HandshakeInput::PixelFormat(servers),
                HandshakeInput::Done,
                HandshakeInput::U32(length),
                HandshakeInput::Bytes(name),
                HandshakeInput::Done,
                HandshakeInput::Done,
            ],
        ) == Some(
            (
                Handshake::Ended,
                seq![
                    HandshakeAction::ReadU16,
                    HandshakeAction::ReadU16,
                    HandshakeAction::Emit(VncEvent::SetResolution(screen)),
                    HandshakeAction::ReadPixelFormat,
                    HandshakeAction::Emit(VncEvent::SetPixelFormat(servers)),
                    HandshakeAction::ReadU32,
                    HandshakeAction::ReadBytes(length as usize),
                    HandshakeAction::Write(ClientMsg::SetEncodings(encodings)),
                    HandshakeAction::Queue(
                        ClientMsg::FramebufferUpdateRequest(
                            Rect { x: 0, y: 0, width: screen.width, height: screen.height },
                            0,
                        ),
                    ),
                    HandshakeAction::Ready((Session { name, screen, pixel_format: servers })),
                ],
            ),
        ),
{
    reveal_with_fuel(run, 11);
}

/// A client with a pixel format of its own: the server is told that format,
/// once its name was read and before the encodings; the user is not told the
/// server's; and pixels come in the client's.
pub proof fn handshake_keeps_own_format(
    own: PixelFormat,
    encodings: Vec<VncEncoding>,
    screen: Screen,
    servers: PixelFormat,
    length: u32,
    name: Vec<u8>,
)
    requires
        name@.len() == length,
    ensures
        run(
            (Handshake::ClientInit { own: Some(own), encodings }),
            seq![
                HandshakeInput::Done,
                HandshakeInput::U16(screen.width),
                HandshakeInput::U16(screen.height),
                HandshakeInput::Done,
                HandshakeInput::PixelFormat(servers),
                HandshakeInput::U32(length),
                HandshakeInput::Bytes(name),
                HandshakeInput::Done,
                HandshakeInput::Done,
                HandshakeInput::Done,
            ],
        ) == Some(
            (
                Handshake::Ended,
                seq![
                    HandshakeAction::ReadU16,
                    HandshakeAction::ReadU16,
                    HandshakeAction::Emit(VncEvent::SetResolution(screen)),
                    HandshakeAction::ReadPixelFormat,
                    HandshakeAction::ReadU32,
                    HandshakeAction::ReadBytes(length as usize),
                    HandshakeAction::Write(ClientMsg::SetPixelFormat(own)),
                    HandshakeAction::Write(ClientMsg::SetEncodings(encodings)),
                    HandshakeAction::Queue(
                        ClientMsg::FramebufferUpdateRequest(
                            Rect { x: 0, y: 0, width: screen.width, height: screen.height },
                            0,
                        ),
                    ),
                    HandshakeAction::Ready((Session { name, screen, pixel_format: own })),
                ],
            ),
        ),
{
    reveal_with_fuel(run, 11);
}

/// Whether a handshake that stands here is completed by these answers.
pub open spec fn completes(from: Handshake, inputs: Seq<HandshakeInput>) -> bool {
    run(from, inputs) matches Some((_, actions)) && actions.len() > 0 && actions.last() is Ready
}

/// The first of several answers that complete a handshake is taken, does not
/// fail it, and leaves it to be completed by the others.
proof fn one_answer(from: Handshake, inputs: Seq<HandshakeInput>) -> (next: Handshake)
    requires
        completes(from, inputs),
    ensures
        inputs.len() > 0,
        inputs[0] !is Failed,
        from.next(inputs[0]) matches Some((state, action)) && {
            &&& state == next
            &&& if action is Ready {
                inputs.len() == 1
            } else {
                completes(next, inputs.drop_first())
            }
        },
{
    let (next, action) = from.next(inputs[0])->0;
    let others = inputs.drop_first();
    let (end, after) = run(next, others)->0;
    let actions = seq![action] + after;
    if others.len() == 0 {
        assert(after =~= seq![]);
        assert(actions.last() == action);
    } else {
        assert(next.next(others[0]) is Some);
        assert(after.len() > 0);
        assert(actions.last() == after.last());
    }
    next
}

/// A handshake is completed in no other way: it needs the size of the screen,
/// the server's format and the whole name, in this order, and every write to
/// have been done. So a client is never without a pixel format.
pub proof fn handshake_is_completed_in_one_way(
    own: Option<PixelFormat>,
    encodings: Vec<VncEncoding>,
    inputs: Seq<HandshakeInput>,
)
    requires
        completes(Handshake::ClientInit { own, encodings }, inputs),
    ensures
        exists|screen: Screen, servers: PixelFormat, length: u32, name: Vec<u8>|
            name@.len() == length && inputs == #[trigger] answers(
                own,
                screen,
                servers,
                length,
                name,
            ),
{
    let begun = Handshake::ClientInit { own, encodings };
    let after_0 = one_answer(begun, inputs);
    let inputs_1 = inputs.drop_first();
    let after_1 = one_answer(after_0, inputs_1);
    let inputs_2 = inputs_1.drop_first();
    let after_2 = one_answer(after_1, inputs_2);
    let inputs_3 = inputs_2.drop_first();
    let after_3 = one_answer(after_2, inputs_3);
    let inputs_4 = inputs_3.drop_first();
    let after_4 = one_answer(after_3, inputs_4);
    let inputs_5 = inputs_4.drop_first();
    let after_5 = one_answer(after_4, inputs_5);
    let inputs_6 = inputs_5.drop_first();
    let after_6 = one_answer(after_5, inputs_6);
    let inputs_7 = inputs_6.drop_first();
    let after_7 = one_answer(after_6, inputs_7);
    let inputs_8 = inputs_7.drop_first();
    let after_8 = one_answer(after_7, inputs_8);
    let inputs_9 = inputs_8.drop_first();
    let after_9 = one_answer(after_8, inputs_9);
    let screen = Screen { width: inputs[1]->U16_0, height: inputs[2]->U16_0 };
    let servers = inputs[4]->PixelFormat_0;
    let at = if own is Some { 5int } else { 6int };
    let length = inputs[at]->U32_0;
    let name = inputs[at + 1]->Bytes_0;
    assert(inputs =~= answers(own, screen, servers, length, name));
}

/// Whatever the handshake was waiting for, a failure of it ends the handshake
/// with that error, and nothing is taken after the end.
pub proof fn failure_ends_handshake(from: Handshake, input: HandshakeInput)
    ensures
        from is Ended ==> from.next(input) is None,
        from !is Ended ==> (input matches HandshakeInput::Failed(error) ==> from.next(input) == Some(
            (Handshake::Ended, HandshakeAction::Fail(error)),
        )),
{
}

/// What the introduction has asked for is what it takes: the number, the format
/// or the bytes that are to be read, of the length that was announced, or that
/// what was to be done is done; or else that it has failed.
pub proof fn introduction_takes_what_it_asked_for(
    before: ServerInit,
    input: HandshakeInput,
    answer: HandshakeInput,
)
    requires
        before.next(input) is Some,
    ensures
        ({
            let (after, action) = before.next(input)->0;
            after.next(answer) is Some <==> match action {
                HandshakeAction::WriteByte(_) => answer is Done || answer is Failed,
                HandshakeAction::ReadU16 => answer is U16 || answer is Failed,
                HandshakeAction::ReadU32 => answer is U32 || answer is Failed,
                HandshakeAction::ReadPixelFormat => answer is PixelFormat || answer is Failed,
                HandshakeAction::ReadBytes(length) => answer is Failed || (
                answer matches HandshakeInput::Bytes(bytes) && bytes@.len() == length),
                HandshakeAction::Emit(_) => answer is Done || answer is Failed,
                HandshakeAction::Write(_) => answer is Done || answer is Failed,
                HandshakeAction::Queue(_) => answer is Done || answer is Failed,
                HandshakeAction::Ready(_) => false,
                HandshakeAction::Fail(_) => false,
            }
        }),
{
}

/// What the handshake has asked for is what it takes, as the introduction does.
pub proof fn handshake_takes_what_it_asked_for(
    before: Handshake,
    input: HandshakeInput,
    answer: HandshakeInput,
)
    requires
        before.next(input) is Some,
    ensures
        ({
            let (after, action) = before.next(input)->0;
            after.next(answer) is Some <==> match action {
                HandshakeAction::WriteByte(_) => answer is Done || answer is Failed,
                HandshakeAction::ReadU16 => answer is U16 || answer is Failed,
                HandshakeAction::ReadU32 => answer is U32 || answer is Failed,
                HandshakeAction::ReadPixelFormat => answer is PixelFormat || answer is Failed,
                HandshakeAction::ReadBytes(length) => answer is Failed || (
                answer matches HandshakeInput::Bytes(bytes) && bytes@.len() == length),
                HandshakeAction::Emit(_) => answer is Done || answer is Failed,
                HandshakeAction::Write(_) => answer is Done || answer is Failed,
                HandshakeAction::Queue(_) => answer is Done || answer is Failed,
                HandshakeAction::Ready(_) => false,
                HandshakeAction::Fail(_) => false,
            }
        }),
{
    match before {
        Handshake::ServerInit { init, encodings } => {
            if init.next(input) is Some {
                introduction_takes_what_it_asked_for(init, input, answer);
            }
        },
        _ => {},
    }
}

/// The introduction of the server, for a client without a format of its own: the
/// first number is the width of the screen and the second its height, and the
/// session has them, the server's format and the name, all as they were sent.
pub proof fn introduction_without_own_format(
    width: u16,
    height: u16,
    servers: PixelFormat,
    length: u32,
    name: Vec<u8>,
)
    requires
        name@.len() == length,
    ensures
        run(
            (ServerInit::Width { own: None }),
            seq![
                HandshakeInput::U16(width),
                HandshakeInput::U16(height),
                HandshakeInput::Done,
                HandshakeInput::PixelFormat(servers),
                HandshakeInput::Done,
                HandshakeInput::U32(length),
                HandshakeInput::Bytes(name),
            ],
        ) == Some(
            (
                ServerInit::Ended,
                seq![
                    HandshakeAction::ReadU16,
                    HandshakeAction::Emit(VncEvent::SetResolution(Screen { width, height })),
                    HandshakeAction::ReadPixelFormat,
                    HandshakeAction::Emit(VncEvent::SetPixelFormat(servers)),
                    HandshakeAction::ReadU32,
                    HandshakeAction::ReadBytes(length as usize),
                    HandshakeAction::Ready(
                        Session { name, screen: Screen { width, height }, pixel_format: servers },
                    ),
                ],
            ),
        ),
{
    reveal_with_fuel(run, 8);
}

/// The introduction of the server, for a client with a format of its own: the
/// server's format is read and not told, and the server is told the client's.
pub proof fn introduction_with_own_format(
    own: PixelFormat,
    width: u16,
    height: u16,
    servers: PixelFormat,
    length: u32,
    name: Vec<u8>,
)
    requires
        name@.len() == length,
    ensures
        run(
            (ServerInit::Width { own: Some(own) }),
            seq![
                HandshakeInput::U16(width),
                HandshakeInput::U16(height),
                HandshakeInput::Done,
                HandshakeInput::PixelFormat(servers),
                HandshakeInput::U32(length),
                HandshakeInput::Bytes(name),
                HandshakeInput::Done,
            ],
        ) == Some(
            (
                ServerInit::Ended,
                seq![
                    HandshakeAction::ReadU16,
                    HandshakeAction::Emit(VncEvent::SetResolution(Screen { width, height })),
                    HandshakeAction::ReadPixelFormat,
                    HandshakeAction::ReadU32,
                    HandshakeAction::ReadBytes(length as usize),
                    HandshakeAction::Write(ClientMsg::SetPixelFormat(own)),
                    HandshakeAction::Ready(
                        Session { name, screen: Screen { width, height }, pixel_format: own },
                    ),
                ],
            ),
        ),
{
    reveal_with_fuel(run, 8);
}

/// Whatever the introduction was waiting for, a failure of it ends it with that
/// error.
pub proof fn failure_ends_introduction(from: ServerInit, error: VncError)
    requires
        from !is Ended,
    ensures
        from.next(HandshakeInput::Failed(error)) == Some(
            (ServerInit::Ended, HandshakeAction::Fail(error)),
        ),
{
}

/// How a handshake begins: the client first says, by 1 or 0, whether the screen
/// may be shared, and holds the format and the encodings that it was given.
pub proof fn handshake_begins_with_shared_flag(
    shared: bool,
    own: Option<PixelFormat>,
    encodings: Vec<VncEncoding>,
    begun: (Handshake, HandshakeAction),
    answer: HandshakeInput,
)
    requires
        call_ensures(Handshake::new, (shared, own, encodings), begun),
    ensures
        shared <==> begun.1 == HandshakeAction::WriteByte(1),
        !shared <==> begun.1 == HandshakeAction::WriteByte(0),
        begun.0 == (Handshake::ClientInit { own, encodings }),
        begun.0.next(answer) is Some <==> answer is Done || answer is Failed,
{
}

/// The text of a name is made of all the bytes that the server sent as the name,
/// and of nothing else.
pub proof fn name_is_made_of_its_bytes(session: Session, other: Session)
    ensures
        session.name_text() == utf8_lossy(session.name@),
        session.name@ == other.name@ ==> session.name_text() == other.name_text(),
{
}

} // verus!
