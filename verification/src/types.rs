//! The vocabulary of a connection: rectangles, pixel formats, encodings, the
//! messages that cross the wire, the events handed to the user, and the errors.
use vstd::prelude::*;

verus! {

/// The number of messages that each of the client's channels holds.
pub const CHANNEL_SIZE: usize = 4096;

/// The largest number of bytes that is read from the network at once.
pub const READ_BUFFER_SIZE: usize = 65535;

/// A rectangle of the screen, in pixels.
#[derive(Debug, Clone, Copy, PartialEq, Eq, Structural)]
pub struct Rect {
    pub x: u16,
    pub y: u16,
    pub width: u16,
    pub height: u16,
}

/// The size of the screen, in pixels.
#[derive(Debug, Clone, Copy, PartialEq, Eq, Structural)]
pub struct Screen {
    pub width: u16,
    pub height: u16,
}

impl Screen {
    /// The rectangle that covers a screen of this size.
    pub open spec fn whole(self) -> Rect {
        Rect { x: 0, y: 0, width: self.width, height: self.height }
    }

    /// Returns the rectangle that covers a screen of this size.
    pub fn full_rect(&self) -> (rect: Rect)
        ensures
            rect == self.whole(),
            rect.x == 0 && rect.y == 0,
            rect.width == self.width && rect.height == self.height,
    {
        Rect { x: 0, y: 0, width: self.width, height: self.height }
    }
}

/// How the colour of a pixel is laid out in bits.
#[derive(Debug, Clone, Copy, PartialEq, Eq, Structural)]
pub struct PixelFormat {
    pub bits_per_pixel: u8,
    pub depth: u8,
    pub big_endian_flag: u8,
    pub true_color_flag: u8,
    pub red_max: u16,
    pub green_max: u16,
    pub blue_max: u16,
    pub red_shift: u8,
    pub green_shift: u8,
    pub blue_shift: u8,
}

/// The encodings and pseudo-encodings of a rectangle that the client knows.
#[derive(Debug, Clone, Copy, PartialEq, Eq, Structural)]
pub enum VncEncoding {
    Raw,
    CopyRect,
    Tight,
    Trle,
    Zrle,
    CursorPseudo,
    DesktopSizePseudo,
    LastRectPseudo,
    JPEGQualityLevel0,
    JPEGQualityLevel4,
    JPEGQualityLevel6,
    JPEGQualityLevel9,
}

impl VncEncoding {
    /// The signed number under which the RFB protocol registers an encoding.
    pub open spec fn number(self) -> int {
        match self {
            VncEncoding::Raw => 0,
            VncEncoding::CopyRect => 1,
            VncEncoding::Tight => 7,
            VncEncoding::Trle => 15,
            VncEncoding::Zrle => 16,
            VncEncoding::CursorPseudo => -239,
            VncEncoding::DesktopSizePseudo => -223,
            VncEncoding::LastRectPseudo => -224,
            VncEncoding::JPEGQualityLevel0 => -32,
            VncEncoding::JPEGQualityLevel4 => -28,
            VncEncoding::JPEGQualityLevel6 => -26,
            VncEncoding::JPEGQualityLevel9 => -23,
        }
    }

    /// The number as it crosses the wire: 32 bits, two's complement.
    pub open spec fn code(self) -> u32 {
        if self.number() < 0 {
            (self.number() + 0x1_0000_0000) as u32
        } else {
            self.number() as u32
        }
    }

    /// The encoding whose code is given, if the client knows it.
    pub open spec fn of_code(code: u32) -> Option<VncEncoding> {
        let number = if code < 0x8000_0000 { code as int } else { code - 0x1_0000_0000 };
        if number == 0 {
            Some(VncEncoding::Raw)
        } else if number == 1 {
            Some(VncEncoding::CopyRect)
        } else if number == 7 {
            Some(VncEncoding::Tight)
        } else if number == 15 {
            Some(VncEncoding::Trle)
        } else if number == 16 {
            Some(VncEncoding::Zrle)
        } else if number == -239 {
            Some(VncEncoding::CursorPseudo)
        } else if number == -223 {
            Some(VncEncoding::DesktopSizePseudo)
        } else if number == -224 {
            Some(VncEncoding::LastRectPseudo)
        } else if number == -32 {
            Some(VncEncoding::JPEGQualityLevel0)
        } else if number == -28 {
            Some(VncEncoding::JPEGQualityLevel4)
        } else if number == -26 {
            Some(VncEncoding::JPEGQualityLevel6)
        } else if number == -23 {
            Some(VncEncoding::JPEGQualityLevel9)
        } else {
            None
        }
    }

    /// An encoding and its code belong to each other: the code is read back as
    /// this encoding, and no other code is.
    pub proof fn code_identifies_encoding(self, code: u32)
        ensures
            VncEncoding::of_code(code) == Some(self) <==> code == self.code(),
    {
    }

    /// Finds the encoding with the given code; `None` if the client knows none.
    pub fn from_code(code: u32) -> (found: Option<VncEncoding>)
        ensures
            found == VncEncoding::of_code(code),
    {
        match code {
            0 => Some(VncEncoding::Raw),
            1 => Some(VncEncoding::CopyRect),
            7 => Some(VncEncoding::Tight),
            15 => Some(VncEncoding::Trle),
            16 => Some(VncEncoding::Zrle),
            0xffff_ff11 => Some(VncEncoding::CursorPseudo),
            0xffff_ff21 => Some(VncEncoding::DesktopSizePseudo),
            0xffff_ff20 => Some(VncEncoding::LastRectPseudo),
            0xffff_ffe0 => Some(VncEncoding::JPEGQualityLevel0),
            0xffff_ffe4 => Some(VncEncoding::JPEGQualityLevel4),
            0xffff_ffe6 => Some(VncEncoding::JPEGQualityLevel6),
            0xffff_ffe9 => Some(VncEncoding::JPEGQualityLevel9),
            _ => None,
        }
    }
}

/// What the client tells its user.
#[derive(Debug, PartialEq, Eq)]
pub enum VncEvent {
    /// The screen has this size from now on.
    SetResolution(Screen),
    /// Pixels come in this format; it was chosen by the server.
    SetPixelFormat(PixelFormat),
    /// Raw pixels of a rectangle.
    RawImage(Rect, Vec<u8>),
    /// The first rectangle takes the pixels that the second one holds.
    Copy(Rect, Rect),
    /// A rectangle as a JPEG image.
    JpegImage(Rect, Vec<u8>),
    /// The shape of the cursor.
    SetCursor(Rect, Vec<u8>),
    /// Ring the bell.
    Bell,
    /// The server's clipboard.
    Text(String),
    /// Decoding has ended with an error.
    Error(String),
}

/// A key that was pressed or released.
#[derive(Debug, Clone, Copy, PartialEq, Eq, Structural)]
pub struct ClientKeyEvent {
    pub keycode: u32,
    pub down: bool,
}

/// The position of the pointer, and the buttons that are held.
#[derive(Debug, Clone, Copy, PartialEq, Eq, Structural)]
pub struct ClientMouseEvent {
    pub position_x: u16,
    pub position_y: u16,
    pub bottons: u8,
}

/// What the user does.
#[derive(Debug, PartialEq, Eq)]
pub enum X11Event {
    /// Ask for what has changed on the screen.
    Refresh,
    KeyEvent(ClientKeyEvent),
    PointerEvent(ClientMouseEvent),
    /// Send the user's clipboard.
    CopyText(String),
}

/// A message from the client to the server.
#[derive(Debug, PartialEq, Eq)]
pub enum ClientMsg {
    SetPixelFormat(PixelFormat),
    SetEncodings(Vec<VncEncoding>),
    /// The rectangle that is wanted, and 1 to be sent changes only.
    FramebufferUpdateRequest(Rect, u8),
    KeyEvent(u32, bool),
    PointerEvent(u16, u16, u8),
    ClientCutText(String),
}

/// A message from the server to the client.
#[derive(Debug, PartialEq, Eq)]
pub enum ServerMsg {
    /// This many rectangles follow.
    FramebufferUpdate(u16),
    Bell,
    ServerCutText(String),
}

/// What a task finds when it looks whether it is to stop.
#[derive(Debug, Clone, Copy, PartialEq, Eq, Structural)]
pub enum StopPoll {
    /// Nobody has asked it to stop.
    Empty,
    /// It was asked to stop.
    Requested,
    /// Whoever could have asked is gone, or has asked before.
    Closed,
}

/// What the user finds when looking for an event without waiting.
#[derive(Debug, PartialEq, Eq)]
pub enum Polled {
    /// The next event.
    Event(VncEvent),
    /// There is none at present.
    Empty,
    /// There is none, and none will come.
    Disconnected,
}

/// What became of something that was offered to a channel.
#[derive(Debug, Clone, Copy, PartialEq, Eq, Structural)]
pub enum Offer {
    Taken,
    /// The channel is full.
    Full,
    /// The task at the other end has ended.
    Closed,
}

/// What a channel took of what it was offered, in order.
pub open spec fn taken<T>(offers: Seq<(T, Offer)>) -> Seq<T>
    decreases offers.len(),
{
    if offers.len() == 0 {
        Seq::empty()
    } else {
        let (offered, outcome) = offers.last();
        if outcome is Taken {
            taken(offers.drop_last()).push(offered)
        } else {
            taken(offers.drop_last())
        }
    }
}

/// What the client makes of the kind of an I/O error.
#[derive(Debug, Clone, Copy, PartialEq, Eq, Structural)]
pub enum IoErrorKind {
    /// The stream ended before what was read was complete.
    UnexpectedEof,
    /// Any other kind.
    Other,
}

/// An I/O error: its kind and its text.
#[derive(Debug, PartialEq, Eq)]
pub struct IoError {
    pub kind: IoErrorKind,
    pub message: String,
}

/// What can go wrong on a connection.
#[derive(Debug, PartialEq, Eq)]
pub enum VncError {
    /// The client was closed, or its tasks have ended.
    ClientNotRunning,
    /// The other end of a channel is gone.
    ChannelClosed,
    /// A rectangle came in an encoding with this code, which the client does not know.
    UnknownEncoding(u32),
    /// Reading or writing failed.
    IoError(IoError),
    /// Anything else, such as a message or an image that cannot be decoded.
    General(String),
}

impl VncError {
    /// The text of an error.
    pub open spec fn text(self) -> Seq<char> {
        match self {
            VncError::ClientNotRunning => "the client is not running"@,
            VncError::ChannelClosed => "channel closed"@,
            VncError::UnknownEncoding(_) => "unknown encoding"@,
            VncError::IoError(e) => e.message@,
            VncError::General(message) => message@,
        }
    }

    /// Turns the error into its text.
    pub fn into_text(self) -> (text: String)
        ensures
            text@ == self.text(),
    {
        match self {
            VncError::ClientNotRunning => "the client is not running".to_owned(),
            VncError::ChannelClosed => "channel closed".to_owned(),
            VncError::UnknownEncoding(_) => "unknown encoding".to_owned(),
            VncError::IoError(e) => e.message,
            VncError::General(message) => message,
        }
    }
}

/// A channel refuses a message only when its other end is gone.
impl<T> From<tokio::sync::mpsc::error::SendError<T>> for VncError {
    fn from(refused: tokio::sync::mpsc::error::SendError<T>) -> (error: Self) {
        VncError::ChannelClosed
    }
}

impl<T> vstd::std_specs::convert::FromSpecImpl<tokio::sync::mpsc::error::SendError<T>> for VncError {
    open spec fn obeys_from_spec() -> bool {
        true
    }

    open spec fn from_spec(refused: tokio::sync::mpsc::error::SendError<T>) -> Self {
        VncError::ChannelClosed
    }
}

/// The rectangle that covers a screen begins at the upper left corner and has
/// the size of the screen, so a pixel lies in it exactly if it lies on the
/// screen.
pub proof fn whole_covers_the_screen(screen: Screen, x: int, y: int)
    ensures
        screen.whole().x == 0,
        screen.whole().y == 0,
        screen.whole().width == screen.width,
        screen.whole().height == screen.height,
        ({
            let rect = screen.whole();
            0 <= x < screen.width && 0 <= y < screen.height <==> rect.x <= x < rect.x + rect.width
                && rect.y <= y < rect.y + rect.height
        }),
{
}

/// Each encoding has the number under which it is registered, negative ones in
/// two's complement, and no other number is known.
pub proof fn encodings_have_registered_codes(code: u32)
    ensures
        VncEncoding::of_code(code) == Some(VncEncoding::Raw) <==> code == 0,
        VncEncoding::of_code(code) == Some(VncEncoding::CopyRect) <==> code == 1,
        VncEncoding::of_code(code) == Some(VncEncoding::Tight) <==> code == 7,
        VncEncoding::of_code(code) == Some(VncEncoding::Trle) <==> code == 15,
        VncEncoding::of_code(code) == Some(VncEncoding::Zrle) <==> code == 16,
        VncEncoding::of_code(code) == Some(VncEncoding::CursorPseudo) <==> code + 239
            == 0x1_0000_0000,
        VncEncoding::of_code(code) == Some(VncEncoding::DesktopSizePseudo) <==> code + 223
            == 0x1_0000_0000,
        VncEncoding::of_code(code) == Some(VncEncoding::LastRectPseudo) <==> code + 224
            == 0x1_0000_0000,
        VncEncoding::of_code(code) == Some(VncEncoding::JPEGQualityLevel0) <==> code + 32
            == 0x1_0000_0000,
        VncEncoding::of_code(code) == Some(VncEncoding::JPEGQualityLevel4) <==> code + 28
            == 0x1_0000_0000,
        VncEncoding::of_code(code) == Some(VncEncoding::JPEGQualityLevel6) <==> code + 26
            == 0x1_0000_0000,
        VncEncoding::of_code(code) == Some(VncEncoding::JPEGQualityLevel9) <==> code + 23
            == 0x1_0000_0000,
{
}

/// An error that brings a text of its own is told by that text, unchanged; each
/// of the others has one text.
pub proof fn errors_are_told_by_their_text(kind: IoErrorKind, message: String, code: u32)
    ensures
        VncError::IoError(IoError { kind, message }).text() == message@,
        VncError::General(message).text() == message@,
        VncError::UnknownEncoding(code).text() == "unknown encoding"@,
        VncError::ChannelClosed.text() == "channel closed"@,
        VncError::ClientNotRunning.text() == "the client is not running"@,
{
}

/// Whatever was refused, the error of a refused send is that the channel is
/// closed.
pub proof fn refused_send_is_a_closed_channel<T>(
    refused: tokio::sync::mpsc::error::SendError<T>,
    error: VncError,
)
    requires
        call_ensures(
            <VncError as From<tokio::sync::mpsc::error::SendError<T>>>::from,
            (refused,),
            error,
        ),
    ensures
        error == VncError::ChannelClosed,
{
}

} // verus!
