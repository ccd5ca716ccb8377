//! The loop that reads what the server sends and turns it into events.
use crate::machine::{run, run_from_first, run_in_two_parts, Machine};
use crate::outside::{poll_stop, stop_answers};
use crate::rectangle::{header_is_read_number_by_number, ImageRect};
use crate::types::{
    encodings_have_registered_codes, IoError, IoErrorKind, PixelFormat, Rect, Screen, ServerMsg,
    StopPoll, VncEncoding, VncError, VncEvent,
};
use vstd::prelude::*;

verus! {

/// The decoders that the loop hands rectangles to. There is one of each for
/// the whole life of a loop, since a decoder may keep state from one rectangle
/// to the next.
#[derive(Debug, Clone, Copy, PartialEq, Eq, Structural)]
pub enum Decoder {
    Raw,
    Tight,
    Trle,
    Zrle,
    Cursor,
}

/// What the loop is waiting for.
#[derive(Debug, Clone, Copy, PartialEq, Eq, Structural)]
pub enum ReadPhase {
    /// Whether it is to stop.
    Polling,
    /// The next message of the server, or a request to stop.
    Message,
    /// The header of a rectangle, after which this many more rectangles come.
    Header { rest: u16 },
    /// The x coordinate that a rectangle is copied from.
    SourceX { rect: Rect, rest: u16 },
    /// The y coordinate that a rectangle is copied from.
    SourceY { rect: Rect, x: u16, rest: u16 },
    /// That a decoder is done, or that an event was taken; after it this many
    /// more rectangles come.
    Working { rest: u16 },
    /// Nothing: the loop has ended.
    Ended,
}

/// What the loop asks for.
#[derive(Debug, PartialEq, Eq)]
pub enum ReadAction {
    /// Look whether the loop is to stop, with `ReadLoop::poll_stop`.
    PollStop,
    /// Read a message of the server, or wait until the loop is to stop.
    ReadMessage,
    /// Read the header of a rectangle.
    ReadHeader,
    /// Read a number of 16 bits.
    ReadU16,
    /// Let a decoder read the pixels of a rectangle.
    Decode(Decoder, PixelFormat, Rect),
    /// Hand an event to the user.
    Emit(VncEvent),
    /// The loop has ended.
    Finish(Result<(), VncError>),
}

/// The answers to what the loop asks for.
#[derive(Debug, PartialEq, Eq)]
pub enum ReadInput {
    Stop(StopPoll),
    Message(ServerMsg),
    Header([u8; 12]),
    U16(u16),
    /// The decoder is done, or the event was taken.
    Done,
    /// What was asked for has failed.
    Failed(VncError),
}

/// The loop that reads and decodes what the server sends.
#[derive(Debug, Clone, Copy, PartialEq, Eq, Structural)]
pub struct ReadLoop {
    /// The format that pixels come in.
    pub pixel_format: PixelFormat,
    pub phase: ReadPhase,
}

impl ReadLoop {
    /// The loop in another phase.
    pub open spec fn at(self, phase: ReadPhase) -> ReadLoop {
        ReadLoop { pixel_format: self.pixel_format, phase }
    }

    /// Where the loop stands when `count` rectangles of an update are to come:
    /// at the header of the first, or, with none left, between two messages.
    pub open spec fn before_rectangles(self, count: u16) -> (ReadLoop, ReadAction) {
        if count == 0 {
            (self.at(ReadPhase::Polling), ReadAction::PollStop)
        } else {
            (self.at(ReadPhase::Header { rest: (count - 1) as u16 }), ReadAction::ReadHeader)
        }
    }

    /// Where the loop stands after it has failed.
    pub open spec fn failed(self, error: VncError) -> (ReadLoop, ReadAction) {
        (self.at(ReadPhase::Ended), ReadAction::Finish(Err(error)))
    }

    /// What the loop does with a message.
    pub open spec fn on_message(self, message: ServerMsg) -> (ReadLoop, ReadAction) {
        let handing_on = self.at(ReadPhase::Working { rest: 0 });
        match message {
            ServerMsg::FramebufferUpdate(count) => self.before_rectangles(count),
            ServerMsg::Bell => (handing_on, ReadAction::Emit(VncEvent::Bell)),
            ServerMsg::ServerCutText(text) => (handing_on, ReadAction::Emit(VncEvent::Text(text))),
        }
    }

    /// What the loop does with a rectangle after which `rest` more come.
    pub open spec fn on_rectangle(self, image: ImageRect, rest: u16) -> (ReadLoop, ReadAction) {
        let working = self.at(ReadPhase::Working { rest });
        match decoder_of(image.encoding) {
            Some(decoder) => (working, ReadAction::Decode(decoder, self.pixel_format, image.rect)),
            None => if image.encoding == VncEncoding::CopyRect {
                (self.at(ReadPhase::SourceX { rect: image.rect, rest }), ReadAction::ReadU16)
            } else if image.encoding == VncEncoding::DesktopSizePseudo {
                (working, ReadAction::Emit(VncEvent::SetResolution(size_of_rect(image.rect))))
            } else {
                self.before_rectangles(0)
            },
        }
    }

    /// Starts the loop; its first action is `ReadAction::PollStop`.
    pub fn new(pixel_format: PixelFormat) -> (started: ReadLoop)
        ensures
            started == (ReadLoop { pixel_format, phase: ReadPhase::Polling }),
    {
        ReadLoop { pixel_format, phase: ReadPhase::Polling }
    }

    fn await_rectangles(self, count: u16) -> (next: (ReadLoop, ReadAction))
        ensures
            next == self.before_rectangles(count),
    {
        let pixel_format = self.pixel_format;
        if count == 0 {
            (ReadLoop { pixel_format, phase: ReadPhase::Polling }, ReadAction::PollStop)
        } else {
            let phase = ReadPhase::Header { rest: count - 1 };
            (ReadLoop { pixel_format, phase }, ReadAction::ReadHeader)
        }
    }

    fn take_message(self, message: ServerMsg) -> (next: (ReadLoop, ReadAction))
        ensures
            next == self.on_message(message),
    {
        let handing_on = ReadLoop {
            pixel_format: self.pixel_format,
            phase: ReadPhase::Working { rest: 0 },
        };
        match message {
            ServerMsg::FramebufferUpdate(count) => self.await_rectangles(count),
            ServerMsg::Bell => (handing_on, ReadAction::Emit(VncEvent::Bell)),
            ServerMsg::ServerCutText(text) => (handing_on, ReadAction::Emit(VncEvent::Text(text))),
        }
    }

    fn take_rectangle(self, image: ImageRect, rest: u16) -> (next: (ReadLoop, ReadAction))
        ensures
            next == self.on_rectangle(image, rest),
    {
        let pixel_format = self.pixel_format;
        let rect = image.rect;
        let decoder = match image.encoding {
            VncEncoding::Raw => Decoder::Raw,
            VncEncoding::Tight
            | VncEncoding::JPEGQualityLevel0
            | VncEncoding::JPEGQualityLevel4
            | VncEncoding::JPEGQualityLevel6
            | VncEncoding::JPEGQualityLevel9 => Decoder::Tight,
            VncEncoding::Trle => Decoder::Trle,
            VncEncoding::Zrle => Decoder::Zrle,
            VncEncoding::CursorPseudo => Decoder::Cursor,
            VncEncoding::CopyRect => {
                let phase = ReadPhase::SourceX { rect, rest };
                return (ReadLoop { pixel_format, phase }, ReadAction::ReadU16);
            },
            VncEncoding::DesktopSizePseudo => {
                let phase = ReadPhase::Working { rest };
                let size = Screen { width: rect.width, height: rect.height };
                let event = VncEvent::SetResolution(size);
                return (ReadLoop { pixel_format, phase }, ReadAction::Emit(event));
            },
            VncEncoding::LastRectPseudo => {
                return self.await_rectangles(0);
            },
        };
        let phase = ReadPhase::Working { rest };
        (ReadLoop { pixel_format, phase }, ReadAction::Decode(decoder, pixel_format, rect))
    }

    /// Looks whether the loop is to stop, if that is what it waits for, and
    /// goes on by the answer: on if nobody has asked it to, and otherwise to its
    /// end. The answer depends on the holder of the other end of `stop_ch`;
    /// `step` says what follows from each.
    pub fn poll_stop(self, stop_ch: &mut tokio::sync::oneshot::Receiver<()>) -> (taken: Option<
        (ReadLoop, ReadAction),
    >)
        ensures
            self.phase is Polling ==> ({
                let poll = stop_answers(*final(stop_ch)).last();
                &&& stop_answers(*final(stop_ch)) == stop_answers(*old(stop_ch)).push(poll)
                &&& taken == self.next(ReadInput::Stop(poll))
            }),
            self.phase !is Polling ==> taken is None && *final(stop_ch) == *old(stop_ch),
    {
        match self.phase {
            ReadPhase::Polling => {
                let poll = poll_stop(stop_ch);
                self.step(ReadInput::Stop(poll))
            },
            _ => None,
        }
    }
}

/// The decoder that reads the pixels of an encoding, if one is needed. The JPEG
/// quality levels are pictures of the tight encoding.
pub open spec fn decoder_of(encoding: VncEncoding) -> Option<Decoder> {
    match encoding {
        VncEncoding::Raw => Some(Decoder::Raw),
        VncEncoding::Tight => Some(Decoder::Tight),
        VncEncoding::Trle => Some(Decoder::Trle),
        VncEncoding::Zrle => Some(Decoder::Zrle),
        VncEncoding::CursorPseudo => Some(Decoder::Cursor),
        VncEncoding::JPEGQualityLevel0 => Some(Decoder::Tight),
        VncEncoding::JPEGQualityLevel4 => Some(Decoder::Tight),
        VncEncoding::JPEGQualityLevel6 => Some(Decoder::Tight),
        VncEncoding::JPEGQualityLevel9 => Some(Decoder::Tight),
        VncEncoding::CopyRect => None,
        VncEncoding::DesktopSizePseudo => None,
        VncEncoding::LastRectPseudo => None,
    }
}

/// The screen that a rectangle would fill.
pub open spec fn size_of_rect(rect: Rect) -> Screen {
    Screen { width: rect.width, height: rect.height }
}

/// The rectangle of the same size at another place.
pub open spec fn moved(rect: Rect, x: u16, y: u16) -> Rect {
    Rect { x, y, width: rect.width, height: rect.height }
}

impl Machine for ReadLoop {
    type Input = ReadInput;

    type Action = ReadAction;

    open spec fn next(self, input: ReadInput) -> Option<(ReadLoop, ReadAction)> {
        match input {
            ReadInput::Stop(poll) => match self.phase {
                ReadPhase::Polling => if poll is Empty {
                    Some((self.at(ReadPhase::Message), ReadAction::ReadMessage))
                } else {
                    Some((self.at(ReadPhase::Ended), ReadAction::Finish(Ok(()))))
                },
                ReadPhase::Message => if poll is Empty {
                    None
                } else {
                    Some((self.at(ReadPhase::Ended), ReadAction::Finish(Ok(()))))
                },
                _ => None,
            },
            ReadInput::Message(message) => match self.phase {
                ReadPhase::Message => Some(self.on_message(message)),
                _ => None,
            },
            ReadInput::Header(header) => match self.phase {
                ReadPhase::Header { rest } => match ImageRect::announced(header) {
                    Ok(image) => Some(self.on_rectangle(image, rest)),
                    Err(code) => Some(self.failed(VncError::UnknownEncoding(code))),
                },
                _ => None,
            },
            ReadInput::U16(value) => match self.phase {
                ReadPhase::SourceX { rect, rest } => Some(
                    (self.at(ReadPhase::SourceY { rect, x: value, rest }), ReadAction::ReadU16),
                ),
                ReadPhase::SourceY { rect, x, rest } => Some(
                    (
                        self.at(ReadPhase::Working { rest }),
                        ReadAction::Emit(VncEvent::Copy(rect, moved(rect, x, value))),
                    ),
                ),
                _ => None,
            },
            ReadInput::Done => match self.phase {
                ReadPhase::Working { rest } => Some(self.before_rectangles(rest)),
                _ => None,
            },
            ReadInput::Failed(error) => match self.phase {
                ReadPhase::Polling => None,
                ReadPhase::Ended => None,
                _ => Some(self.failed(error)),
            },
        }
    }

    fn step(self, input: ReadInput) -> (taken: Option<(ReadLoop, ReadAction)>) {
        let pixel_format = self.pixel_format;
        let ended = ReadLoop { pixel_format, phase: ReadPhase::Ended };
        match (self.phase, input) {
            (ReadPhase::Polling, ReadInput::Stop(StopPoll::Empty)) => {
                let waiting = ReadLoop { pixel_format, phase: ReadPhase::Message };
                Some((waiting, ReadAction::ReadMessage))
            },
            (ReadPhase::Polling, ReadInput::Stop(_)) => Some((ended, ReadAction::Finish(Ok(())))),
            (ReadPhase::Message, ReadInput::Stop(StopPoll::Empty)) => None,
            (ReadPhase::Message, ReadInput::Stop(_)) => Some((ended, ReadAction::Finish(Ok(())))),
            (ReadPhase::Message, ReadInput::Message(message)) => Some(self.take_message(message)),
            (ReadPhase::Header { rest }, ReadInput::Header(header)) => {
                match ImageRect::from(header) {
                    Ok(image) => Some(self.take_rectangle(image, rest)),
                    Err(code) => {
                        let error = VncError::UnknownEncoding(code);
                        Some((ended, ReadAction::Finish(Err(error))))
                    },
                }
            },
            (ReadPhase::SourceX { rect, rest }, ReadInput::U16(x)) => {
                let phase = ReadPhase::SourceY { rect, x, rest };
                Some((ReadLoop { pixel_format, phase }, ReadAction::ReadU16))
            },
            (ReadPhase::SourceY { rect, x, rest }, ReadInput::U16(y)) => {
                let source = Rect { x, y, width: rect.width, height: rect.height };
                let phase = ReadPhase::Working { rest };
                let event = VncEvent::Copy(rect, source);
                Some((ReadLoop { pixel_format, phase }, ReadAction::Emit(event)))
            },
            (ReadPhase::Working { rest }, ReadInput::Done) => {
                Some(self.await_rectangles(rest))
            },
            (ReadPhase::Polling, _) => None,
            (ReadPhase::Ended, _) => None,
            (_, ReadInput::Failed(error)) => Some((ended, ReadAction::Finish(Err(error)))),
            (_, _) => None,
        }
    }
}

/// Whether an error means no more than that the connection has ended.
pub open spec fn is_end_of_stream(error: VncError) -> bool {
    error matches VncError::IoError(e) && e.kind == IoErrorKind::UnexpectedEof
}

/// What the user is told of the error that the loop has ended with: its text,
/// and nothing at all where the connection has merely ended.
pub fn failure_event(error: VncError) -> (event: Option<VncEvent>)
    ensures
        event is None <==> is_end_of_stream(error),
        event matches Some(told) ==> (told matches VncEvent::Error(text) && text@ == error.text()),
{
    match error {
        VncError::IoError(e) => match e.kind {
            IoErrorKind::UnexpectedEof => None,
            IoErrorKind::Other => Some(VncEvent::Error(e.message)),
        },
        _ => Some(VncEvent::Error(error.into_text())),
    }
}

/// A rectangle as it comes over the wire: its header and, where it is a copy,
/// the place that it is copied from.
pub struct Rectangle {
    pub header: [u8; 12],
    pub source_x: u16,
    pub source_y: u16,
}

impl Rectangle {
    pub open spec fn is_known(self) -> bool {
        ImageRect::announced(self.header) is Ok
    }

    pub open spec fn image(self) -> ImageRect {
        ImageRect::announced(self.header)->Ok_0
    }

    /// Whether the rectangle says that no more rectangles come.
    pub open spec fn ends_update(self) -> bool {
        self.is_known() && self.image().encoding == VncEncoding::LastRectPseudo
    }

    /// The answers that the loop gets while it takes the rectangle, if nothing
    /// fails.
    pub open spec fn inputs(self) -> Seq<ReadInput> {
        if self.image().encoding == VncEncoding::CopyRect {
            seq![ReadInput::Header(self.header)] + (seq![ReadInput::U16(self.source_x)] + (
            seq![ReadInput::U16(self.source_y)] + (seq![ReadInput::Done] + Seq::empty())))
        } else if self.ends_update() {
            seq![ReadInput::Header(self.header)] + Seq::empty()
        } else {
            seq![ReadInput::Header(self.header)] + (seq![ReadInput::Done] + Seq::empty())
        }
    }

    /// What the rectangle makes the loop do: hand it to a decoder, or tell the
    /// user of it.
    pub open spec fn effects(self, pixel_format: PixelFormat) -> Seq<ReadAction> {
        let rect = self.image().rect;
        match decoder_of(self.image().encoding) {
            Some(decoder) => seq![ReadAction::Decode(decoder, pixel_format, rect)],
            None => if self.image().encoding == VncEncoding::CopyRect {
                let source = moved(rect, self.source_x, self.source_y);
                seq![ReadAction::Emit(VncEvent::Copy(rect, source))]
            } else if self.image().encoding == VncEncoding::DesktopSizePseudo {
                seq![ReadAction::Emit(VncEvent::SetResolution(size_of_rect(rect)))]
            } else {
                seq![]
            },
        }
    }
}

/// The answers for one rectangle after the other.
pub open spec fn inputs_of(rectangles: Seq<Rectangle>) -> Seq<ReadInput>
    decreases rectangles.len(),
{
    if rectangles.len() == 0 {
        Seq::empty()
    } else {
        rectangles[0].inputs() + inputs_of(rectangles.drop_first())
    }
}

/// What one rectangle after the other makes the loop do.
pub open spec fn effects_of(rectangles: Seq<Rectangle>, pixel_format: PixelFormat) -> Seq<ReadAction>
    decreases rectangles.len(),
{
    if rectangles.len() == 0 {
        Seq::empty()
    } else {
        rectangles[0].effects(pixel_format) + effects_of(rectangles.drop_first(), pixel_format)
    }
}

/// Whether these are all the rectangles of an update that announces `count` of
/// them: that many, or fewer if the last one says that no more come.
pub open spec fn is_whole_update(rectangles: Seq<Rectangle>, count: u16) -> bool {
    &&& forall|i: int| 0 <= i < rectangles.len() ==> (#[trigger] rectangles[i]).is_known()
    &&& forall|i: int|
        0 <= i < rectangles.len() - 1 ==> !(#[trigger] rectangles[i]).ends_update()
    &&& rectangles.len() <= count
    &&& rectangles.len() < count ==> rectangles.len() > 0 && rectangles.last().ends_update()
}

/// The actions that reach a decoder or the user.
pub open spec fn effects(actions: Seq<ReadAction>) -> Seq<ReadAction>
    decreases actions.len(),
{
    if actions.len() == 0 {
        Seq::empty()
    } else if actions[0] is Decode || actions[0] is Emit {
        seq![actions[0]] + effects(actions.drop_first())
    } else {
        effects(actions.drop_first())
    }
}

proof fn effects_in_two_parts(first: Seq<ReadAction>, second: Seq<ReadAction>)
    ensures
        effects(first + second) == effects(first) + effects(second),
    decreases first.len(),
{
    if first.len() == 0 {
        assert(first + second =~= second);
    } else {
        assert((first + second).drop_first() =~= first.drop_first() + second);
        effects_in_two_parts(first.drop_first(), second);
        assert(effects(first + second) =~= effects(first) + effects(second));
    }
}

/// Whether the loop looks for a request to stop at the end of these actions,
/// and not before.
pub open spec fn polls_at_end_only(actions: Seq<ReadAction>) -> bool {
    &&& actions.len() > 0
    &&& actions.last() is PollStop
    &&& forall|i: int| 0 <= i < actions.len() - 1 ==> !(#[trigger] actions[i] is PollStop)
}

/// One rectangle brings the loop to the next one, or to the end of the update.
proof fn rectangle_is_taken(start: ReadLoop, rectangle: Rectangle, rest: u16)
    requires
        start.phase == (ReadPhase::Header { rest }),
        rectangle.is_known(),
    ensures
        run(start, rectangle.inputs()) matches Some((end, actions)) && {
            let left = if rectangle.ends_update() { 0u16 } else { rest };
            &&& actions.len() > 0
            &&& (end, actions.last()) == start.before_rectangles(left)
            &&& effects(actions) == rectangle.effects(start.pixel_format)
            &&& forall|i: int| 0 <= i < actions.len() - 1 ==> !(#[trigger] actions[i] is PollStop)
        },
{
    let none = Seq::<ReadInput>::empty();
    let image = rectangle.image();
    let done = seq![ReadInput::Done] + none;
    let header = ReadInput::Header(rectangle.header);
    let (second, action1) = start.on_rectangle(image, rest);
    reveal_with_fuel(effects, 5);
    if image.encoding == VncEncoding::CopyRect {
        let inputs_y = seq![ReadInput::U16(rectangle.source_y)] + done;
        let inputs_x = seq![ReadInput::U16(rectangle.source_x)] + inputs_y;
        let (third, action2) = second.next(ReadInput::U16(rectangle.source_x))->0;
        let (fourth, action3) = third.next(ReadInput::U16(rectangle.source_y))->0;
        let (end, action4) = fourth.next(ReadInput::Done)->0;
        run_from_first(start, header, inputs_x);
        run_from_first(second, ReadInput::U16(rectangle.source_x), inputs_y);
        run_from_first(third, ReadInput::U16(rectangle.source_y), done);
        run_from_first(fourth, ReadInput::Done, none);
        let (_, actions) = run(start, rectangle.inputs())->0;
        assert(actions =~= seq![action1, action2, action3, action4]);
        assert(actions.drop_first() =~= seq![action2, action3, action4]);
        assert(actions.drop_first().drop_first() =~= seq![action3, action4]);
        assert(actions.drop_first().drop_first().drop_first() =~= seq![action4]);
        assert(effects(seq![action4]) =~= seq![]);
        assert(effects(actions) =~= seq![action3]);
    } else if rectangle.ends_update() {
        run_from_first(start, header, none);
        let (_, actions) = run(start, rectangle.inputs())->0;
        assert(actions =~= seq![action1]);
        assert(effects(actions) =~= seq![]);
    } else {
        let (end, action2) = second.next(ReadInput::Done)->0;
        run_from_first(start, header, done);
        run_from_first(second, ReadInput::Done, none);
        let (_, actions) = run(start, rectangle.inputs())->0;
        assert(actions =~= seq![action1, action2]);
        assert(actions.drop_first() =~= seq![action2]);
        assert(effects(seq![action2]) =~= seq![]);
        assert(effects(actions) =~= seq![action1]);
    }
}

proof fn rectangles_are_taken(start: ReadLoop, rectangles: Seq<Rectangle>, count: u16)
    requires
        count > 0,
        start == start.before_rectangles(count).0,
        is_whole_update(rectangles, count),
    ensures
        run(start, inputs_of(rectangles)) matches Some((end, actions)) && {
            &&& end == start.at(ReadPhase::Polling)
            &&& effects(actions) == effects_of(rectangles, start.pixel_format)
            &&& polls_at_end_only(actions)
        },
    decreases rectangles.len(),
{
    let rest = (count - 1) as u16;
    let first = rectangles[0];
    let others = rectangles.drop_first();
    rectangle_is_taken(start, first, rest);
    run_in_two_parts(start, first.inputs(), inputs_of(others));
    let (middle, before) = run(start, first.inputs())->0;
    if first.ends_update() || rest == 0 {
        assert(others.len() == 0);
        assert(inputs_of(others) =~= seq![]);
        assert(before + Seq::<ReadAction>::empty() =~= before);
        assert(effects_of(others, start.pixel_format) =~= seq![]);
        assert(effects_of(rectangles, start.pixel_format) =~= first.effects(start.pixel_format));
    } else {
        assert forall|i: int| 0 <= i < others.len() implies (#[trigger] others[i]).is_known() && (i
            < others.len() - 1 ==> !others[i].ends_update()) by {
            assert(others[i] == rectangles[i + 1]);
        }
        assert(others.len() > 0 ==> others.last() == rectangles.last());
        rectangles_are_taken(middle, others, rest);
        let (end, after) = run(middle, inputs_of(others))->0;
        effects_in_two_parts(before, after);
        let actions = before + after;
        assert(actions.last() == after.last());
        assert forall|i: int|
            0 <= i < actions.len() - 1 implies !(#[trigger] actions[i] is PollStop) by {
            if i < before.len() - 1 {
                assert(actions[i] == before[i]);
            } else if i == before.len() - 1 {
                assert(actions[i] == before.last());
            } else {
                assert(actions[i] == after[i - before.len()]);
            }
        }
    }
}

/// An update is taken rectangle by rectangle, in order and to its end: each
/// rectangle goes to the decoder of its encoding, or is told to the user, and
/// only after the last one does the loop look whether it is to stop. The last
/// one is the one with the announced number, or an earlier one that says that
/// no more come.
pub proof fn update_is_taken_whole(start: ReadLoop, rectangles: Seq<Rectangle>, count: u16)
    requires
        start.phase is Message,
        is_whole_update(rectangles, count),
    ensures
        run(
            start,
            seq![ReadInput::Message(ServerMsg::FramebufferUpdate(count))] + inputs_of(rectangles),
        ) matches Some((end, actions)) && {
            &&& end == start.at(ReadPhase::Polling)
            &&& effects(actions) == effects_of(rectangles, start.pixel_format)
            &&& polls_at_end_only(actions)
        },
{
    let message = ReadInput::Message(ServerMsg::FramebufferUpdate(count));
    run_from_first(start, message, inputs_of(rectangles));
    let (middle, action) = start.before_rectangles(count);
    if count == 0 {
        assert(rectangles.len() == 0);
        assert(inputs_of(rectangles) =~= seq![]);
        let none = Seq::<ReadAction>::empty();
        let actions = seq![action] + none;
        assert(actions.drop_first() =~= none);
        assert(effects(none) =~= none);
        assert(effects(actions) =~= none);
    } else {
        rectangles_are_taken(middle, rectangles, count);
        let (end, after) = run(middle, inputs_of(rectangles))->0;
        let actions = seq![action] + after;
        assert(actions.drop_first() =~= after);
        assert(actions.last() == after.last());
        assert forall|i: int|
            0 <= i < actions.len() - 1 implies !(#[trigger] actions[i] is PollStop) by {
            if i > 0 {
                assert(actions[i] == after[i - 1]);
            }
        }
    }
}

/// A bell and a text are told to the user as they came, and then the loop looks
/// whether it is to stop.
pub proof fn notice_is_told(start: ReadLoop, message: ServerMsg)
    requires
        start.phase is Message,
        message !is FramebufferUpdate,
    ensures
        ({
            let told = match message {
                ServerMsg::ServerCutText(text) => VncEvent::Text(text),
                _ => VncEvent::Bell,
            };
            run(start, seq![ReadInput::Message(message), ReadInput::Done]) == Some(
                (
                    start.at(ReadPhase::Polling),
                    seq![ReadAction::Emit(told), ReadAction::PollStop],
                ),
            )
        }),
{
    let done = seq![ReadInput::Done] + Seq::empty();
    let (middle, action) = start.on_message(message);
    run_from_first(start, ReadInput::Message(message), done);
    run_from_first(middle, ReadInput::Done, Seq::empty());
    assert(seq![ReadInput::Message(message), ReadInput::Done] =~= seq![ReadInput::Message(message)]
        + done);
    let (_, actions) = run(start, seq![ReadInput::Message(message)] + done)->0;
    assert(actions =~= seq![action, ReadAction::PollStop]);
}

/// A message of the server with all that belongs to it.
pub enum Delivery {
    /// An update that announces `count` rectangles, and its rectangles.
    Update { count: u16, rectangles: Seq<Rectangle> },
    /// Any other message.
    Notice(ServerMsg),
}

impl Delivery {
    pub open spec fn is_whole(self) -> bool {
        match self {
            Delivery::Update { count, rectangles } => is_whole_update(rectangles, count),
            Delivery::Notice(message) => message !is FramebufferUpdate,
        }
    }

    /// The answers that the loop gets while it takes the delivery, if nothing
    /// fails.
    pub open spec fn inputs(self) -> Seq<ReadInput> {
        match self {
            Delivery::Update { count, rectangles } => seq![
                ReadInput::Message(ServerMsg::FramebufferUpdate(count)),
            ] + inputs_of(rectangles),
            Delivery::Notice(message) => seq![ReadInput::Message(message), ReadInput::Done],
        }
    }

    /// What the delivery makes the loop do.
    pub open spec fn effects(self, pixel_format: PixelFormat) -> Seq<ReadAction> {
        match self {
            Delivery::Update { count, rectangles } => effects_of(rectangles, pixel_format),
            Delivery::Notice(ServerMsg::ServerCutText(text)) => seq![
                ReadAction::Emit(VncEvent::Text(text)),
            ],
            Delivery::Notice(_) => seq![ReadAction::Emit(VncEvent::Bell)],
        }
    }
}

/// The answers that the loop gets while it takes one delivery after the other
/// and nobody asks it to stop.
pub open spec fn inputs_of_all(deliveries: Seq<Delivery>) -> Seq<ReadInput>
    decreases deliveries.len(),
{
    if deliveries.len() == 0 {
        Seq::empty()
    } else {
        seq![ReadInput::Stop(StopPoll::Empty)] + (deliveries[0].inputs() + inputs_of_all(
            deliveries.drop_first(),
        ))
    }
}

/// What one delivery after the other makes the loop do.
pub open spec fn effects_of_all(deliveries: Seq<Delivery>, pixel_format: PixelFormat) -> Seq<
    ReadAction,
>
    decreases deliveries.len(),
{
    if deliveries.len() == 0 {
        Seq::empty()
    } else {
        deliveries[0].effects(pixel_format) + effects_of_all(deliveries.drop_first(), pixel_format)
    }
}

proof fn deliveries_are_taken(start: ReadLoop, deliveries: Seq<Delivery>)
    requires
        start.phase is Polling,
        forall|i: int| 0 <= i < deliveries.len() ==> (#[trigger] deliveries[i]).is_whole(),
    ensures
        run(start, inputs_of_all(deliveries)) matches Some((end, actions)) && {
            &&& end == start
            &&& effects(actions) == effects_of_all(deliveries, start.pixel_format)
        },
    decreases deliveries.len(),
{
    if deliveries.len() > 0 {
        let first = deliveries[0];
        let others = deliveries.drop_first();
        let asked = ReadInput::Stop(StopPoll::Empty);
        let waiting = start.at(ReadPhase::Message);
        run_from_first(start, asked, first.inputs() + inputs_of_all(others));
        run_in_two_parts(waiting, first.inputs(), inputs_of_all(others));
        reveal_with_fuel(effects, 3);
        match first {
            Delivery::Update { count, rectangles } => {
                update_is_taken_whole(waiting, rectangles, count);
            },
            Delivery::Notice(message) => {
                notice_is_told(waiting, message);
                let (_, actions) = run(waiting, first.inputs())->0;
                assert(actions.drop_first() =~= seq![ReadAction::PollStop]);
                assert(actions.drop_first().drop_first() =~= seq![]);
                assert(effects(actions) =~= first.effects(start.pixel_format));
            },
        }
        deliveries_are_taken(start, others);
        let (_, before) = run(waiting, first.inputs())->0;
        let (_, after) = run(start, inputs_of_all(others))->0;
        effects_in_two_parts(before, after);
        let actions = seq![ReadAction::ReadMessage] + (before + after);
        assert(actions.drop_first() =~= before + after);
    }
}

/// The whole life of a loop in which nothing fails: it takes the messages of
/// the server one after the other, each with all its rectangles, does what they
/// ask for in the order in which they came, and ends without an error when it
/// is told to stop.
pub proof fn loop_takes_every_message(
    pixel_format: PixelFormat,
    deliveries: Seq<Delivery>,
    poll: StopPoll,
)
    requires
        forall|i: int| 0 <= i < deliveries.len() ==> (#[trigger] deliveries[i]).is_whole(),
        poll !is Empty,
    ensures
        run(
            (ReadLoop { pixel_format, phase: ReadPhase::Polling }),
            inputs_of_all(deliveries) + seq![ReadInput::Stop(poll)],
        ) matches Some((end, actions)) && {
            &&& end.phase is Ended
            &&& effects(actions) == effects_of_all(deliveries, pixel_format)
            &&& actions.last() == ReadAction::Finish(Ok(()))
        },
{
    let start = ReadLoop { pixel_format, phase: ReadPhase::Polling };
    let last = seq![ReadInput::Stop(poll)];
    deliveries_are_taken(start, deliveries);
    run_in_two_parts(start, inputs_of_all(deliveries), last);
    run_from_first(start, ReadInput::Stop(poll), Seq::empty());
    assert(last =~= last + Seq::empty());
    let (_, before) = run(start, inputs_of_all(deliveries))->0;
    let (_, after) = run(start, last)->0;
    let finish = ReadAction::Finish(Ok(()));
    assert(after =~= seq![finish]);
    assert(after.drop_first() =~= seq![]);
    reveal_with_fuel(effects, 2);
    assert(effects(after) =~= seq![]);
    effects_in_two_parts(before, after);
    assert(effects(before + after) =~= effects(before));
}

/// The loop ends for three reasons only: it was told to stop, which is no
/// error; something that it asked for has failed, and then with that error; or
/// a rectangle came in an encoding that it does not know.
pub proof fn reasons_to_end(before: ReadLoop, input: ReadInput)
    requires
        before.next(input) is Some,
    ensures
        ({
            let (after, action) = before.next(input)->0;
            &&& action is Finish <==> after.phase is Ended
            &&& action == ReadAction::Finish(Ok(())) <==> (input matches ReadInput::Stop(poll)
                && poll !is Empty)
            &&& forall|error: VncError|
                action == ReadAction::Finish(Err(error)) <==> {
                    ||| input == ReadInput::Failed(error)
                    ||| input matches ReadInput::Header(header) && {
                        &&& ImageRect::announced(header) is Err
                        &&& error == VncError::UnknownEncoding(ImageRect::code(header))
                    }
                }
        }),
{
}

/// A request to stop ends the loop, without an error, wherever it stands between
/// two messages: when it looks for one, and while it waits for the server. A
/// message that the loop has been handed is taken to its end first.
pub proof fn stop_is_taken_between_messages(at: ReadLoop, poll: StopPoll)
    requires
        poll !is Empty,
    ensures
        at.next(ReadInput::Stop(poll)) == if at.phase is Polling || at.phase is Message {
            Some((at.at(ReadPhase::Ended), ReadAction::Finish(Ok(()))))
        } else {
            None
        },
{
}

/// Once it has ended, the loop takes nothing more.
pub proof fn ended_loop_takes_nothing(ended: ReadLoop, input: ReadInput)
    requires
        ended.phase is Ended,
    ensures
        ended.next(input) is None,
{
}

/// The pixel format that the loop began with is the one that every decoder is
/// given, however long the loop runs.
pub proof fn pixel_format_is_kept(start: ReadLoop, inputs: Seq<ReadInput>)
    requires
        run(start, inputs) is Some,
    ensures
        ({
            let (end, actions) = run(start, inputs)->0;
            &&& end.pixel_format == start.pixel_format
            &&& forall|i: int|
                0 <= i < actions.len() ==> ((#[trigger] actions[i]) matches ReadAction::Decode(
                    decoder,
                    format,
                    rect,
                ) ==> format == start.pixel_format)
        }),
    decreases inputs.len(),
{
    if inputs.len() > 0 {
        let (middle, action) = start.next(inputs[0])->0;
        pixel_format_is_kept(middle, inputs.drop_first());
    }
}

/// What the loop has asked for is what it takes. Whatever action a step has led
/// to, the loop then takes every answer to that action, and no other: to end
/// before it was answered it has to be told of a failure, or, where it looks or
/// waits for a message, to stop.
pub proof fn loop_takes_what_it_asked_for(before: ReadLoop, input: ReadInput, answer: ReadInput)
    requires
        before.next(input) is Some,
    ensures
        ({
            let (after, action) = before.next(input)->0;
            after.next(answer) is Some <==> match action {
                ReadAction::PollStop => answer is Stop,
                ReadAction::ReadMessage => answer is Message || answer is Failed || (
                answer matches ReadInput::Stop(poll) && poll !is Empty),
                ReadAction::ReadHeader => answer is Header || answer is Failed,
                ReadAction::ReadU16 => answer is U16 || answer is Failed,
                ReadAction::Decode(_, _, _) => answer is Done || answer is Failed,
                ReadAction::Emit(_) => answer is Done || answer is Failed,
                ReadAction::Finish(_) => false,
            }
        }),
{
}

/// The loop begins by looking whether it is to stop, takes whatever it finds, and
/// reads a message if nobody has asked it to.
pub proof fn loop_begins_by_looking(pixel_format: PixelFormat, answer: ReadInput)
    ensures
        ({
            let begun = ReadLoop { pixel_format, phase: ReadPhase::Polling };
            &&& begun.next(answer) is Some <==> answer is Stop
            &&& begun.next(ReadInput::Stop(StopPoll::Empty)) == Some(
                (ReadLoop { pixel_format, phase: ReadPhase::Message }, ReadAction::ReadMessage),
            )
        }),
{
}

/// What becomes of a rectangle, by the bytes of its header: `rect` is made of
/// its first four numbers, and `code` is its last. Pictures go to the decoder of
/// their encoding, with the loop's pixel format and their place; a new size of
/// the screen is told with the width and the height that the header gives; a
/// copy needs the place that it is copied from; the last rectangle ends the
/// update; and anything else is an error that names the code.
pub proof fn rectangle_is_taken_by_its_header(
    at: ReadLoop,
    rest: u16,
    header: [u8; 12],
    rect: Rect,
    code: u32,
)
    requires
        at.phase == (ReadPhase::Header { rest }),
        rect.x == header[0] * 0x100 + header[1],
        rect.y == header[2] * 0x100 + header[3],
        rect.width == header[4] * 0x100 + header[5],
        rect.height == header[6] * 0x100 + header[7],
        code == header[8] * 0x100_0000 + header[9] * 0x1_0000 + header[10] * 0x100 + header[11],
    ensures
        at.next(ReadInput::Header(header)) matches Some((after, action)) && {
            &&& after.pixel_format == at.pixel_format
            &&& code == 0 ==> action == ReadAction::Decode(Decoder::Raw, at.pixel_format, rect)
            &&& code == 7 || code == 0xffff_ffe0 || code == 0xffff_ffe4 || code == 0xffff_ffe6
                || code == 0xffff_ffe9 ==> action == ReadAction::Decode(
                Decoder::Tight,
                at.pixel_format,
                rect,
            )
            &&& code == 15 ==> action == ReadAction::Decode(Decoder::Trle, at.pixel_format, rect)
            &&& code == 16 ==> action == ReadAction::Decode(Decoder::Zrle, at.pixel_format, rect)
            &&& code == 0xffff_ff11 ==> action == ReadAction::Decode(
                Decoder::Cursor,
                at.pixel_format,
                rect,
            )
            &&& code == 0xffff_ff21 ==> (action matches ReadAction::Emit(
                VncEvent::SetResolution(size),
            ) && size.width == header[4] * 0x100 + header[5] && size.height == header[6] * 0x100
                + header[7])
            &&& action is Decode || action is Emit ==> after.phase == (ReadPhase::Working { rest })
            &&& code == 1 ==> action is ReadU16 && after.phase == (ReadPhase::SourceX {
                rect,
                rest,
            })
            &&& code == 0xffff_ff20 ==> action is PollStop && after.phase is Polling
            &&& code != 0 && code != 1 && code != 7 && code != 15 && code != 16 && code
                != 0xffff_ff11 && code != 0xffff_ff20 && code != 0xffff_ff21 && code != 0xffff_ffe0
                && code != 0xffff_ffe4 && code != 0xffff_ffe6 && code != 0xffff_ffe9 ==> action
                == ReadAction::Finish(Err(VncError::UnknownEncoding(code))) && after.phase is Ended
        },
{
    header_is_read_number_by_number(header);
    encodings_have_registered_codes(code);
    assert(ImageRect::code(header) == code);
    assert(ImageRect::place(header) == rect);
}

/// A copy is told with the rectangle of its header, which takes the pixels, and
/// a rectangle of the same size at the two numbers that follow, which holds
/// them; then the update goes on.
pub proof fn copy_is_told_with_its_source(
    at: ReadLoop,
    rest: u16,
    header: [u8; 12],
    x: u16,
    y: u16,
)
    requires
        at.phase == (ReadPhase::Header { rest }),
        header[8] == 0 && header[9] == 0 && header[10] == 0 && header[11] == 1,
    ensures
        at.next(ReadInput::Header(header)) matches Some((second, asked_x)) && {
            &&& asked_x is ReadU16
            &&& second.next(ReadInput::U16(x)) matches Some((third, asked_y)) && {
                &&& asked_y is ReadU16
                &&& third.next(ReadInput::U16(y)) matches Some((fourth, told)) && {
                    &&& fourth == (ReadLoop {
                        pixel_format: at.pixel_format,
                        phase: ReadPhase::Working { rest },
                    })
                    &&& told matches ReadAction::Emit(VncEvent::Copy(target, source)) && {
                        &&& target.x == header[0] * 0x100 + header[1]
                        &&& target.y == header[2] * 0x100 + header[3]
                        &&& target.width == header[4] * 0x100 + header[5]
                        &&& target.height == header[6] * 0x100 + header[7]
                        &&& source.x == x
                        &&& source.y == y
                        &&& source.width == target.width
                        &&& source.height == target.height
                    }
                }
            }
        },
{
    header_is_read_number_by_number(header);
    encodings_have_registered_codes(ImageRect::code(header));
    assert(ImageRect::code(header) == 1);
}

/// The loop counts the rectangles of an update: it asks for the header of the
/// first if any is announced, after each for the next while any is left, and
/// otherwise looks whether it is to stop. Nothing else is asked for in between.
pub proof fn rectangles_are_counted(at: ReadLoop, count: u16)
    ensures
        at.phase is Message ==> (at.next(
            ReadInput::Message(ServerMsg::FramebufferUpdate(count)),
        ) matches Some((after, action)) && {
            &&& after.pixel_format == at.pixel_format
            &&& count == 0 <==> action is PollStop
            &&& count == 0 <==> after.phase is Polling
            &&& count > 0 <==> action is ReadHeader
            &&& count > 0 <==> (after.phase matches ReadPhase::Header { rest } && rest + 1 == count)
        }),
        at.phase == (ReadPhase::Working { rest: count }) ==> (at.next(
            ReadInput::Done,
        ) matches Some((after, action)) && {
            &&& after.pixel_format == at.pixel_format
            &&& count == 0 <==> action is PollStop
            &&& count == 0 <==> after.phase is Polling
            &&& count > 0 <==> action is ReadHeader
            &&& count > 0 <==> (after.phase matches ReadPhase::Header { rest } && rest + 1 == count)
        }),
{
}

/// A bell is told as a bell and a text as the same text, and with that the
/// message is over.
pub proof fn notices_are_told_as_they_came(at: ReadLoop, text: String)
    requires
        at.phase is Message,
    ensures
        at.next(ReadInput::Message(ServerMsg::Bell)) == Some(
            (
                ReadLoop {
                    pixel_format: at.pixel_format,
                    phase: ReadPhase::Working { rest: 0 },
                },
                ReadAction::Emit(VncEvent::Bell),
            ),
        ),
        at.next(ReadInput::Message(ServerMsg::ServerCutText(text))) == Some(
            (
                ReadLoop {
                    pixel_format: at.pixel_format,
                    phase: ReadPhase::Working { rest: 0 },
                },
                ReadAction::Emit(VncEvent::Text(text)),
            ),
        ),
{
}

/// The user is told of every error but one, by the text that the error brings:
/// that the stream has ended, and no other I/O error, is silent.
pub proof fn only_the_end_of_stream_is_silent(
    message: String,
    error: VncError,
    event: Option<VncEvent>,
)
    requires
        call_ensures(failure_event, (error,), event),
    ensures
        error == VncError::IoError(IoError { kind: IoErrorKind::UnexpectedEof, message })
            ==> event is None,
        error == VncError::IoError(IoError { kind: IoErrorKind::Other, message }) ==> (
        event matches Some(VncEvent::Error(text)) && text@ == message@),
        error == VncError::General(message) ==> (event matches Some(VncEvent::Error(text)) && text@
            == message@),
        error !is IoError ==> (event matches Some(VncEvent::Error(_))),
{
}

} // verus!
