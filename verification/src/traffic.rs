//! The traffic of a running connection: bytes from the network to the decoding
//! loop, and messages from the user to the network.
use crate::machine::{run, run_in_two_parts, Machine};
use crate::outside::{
    offer, offers_made, piece_bound, pieces_passed, poll_stop, stop_answers, Offered,
};
use crate::types::{taken, ClientMsg, Offer, StopPoll, VncError, READ_BUFFER_SIZE};
use vstd::prelude::*;

verus! {

/// The pump that carries bytes from the network to the decoding loop. It reads
/// nothing while bytes that it has read wait for room in the channel.
#[derive(Debug, PartialEq, Eq)]
pub enum Pump {
    /// Bytes are being read.
    Reading,
    /// These bytes were read and are to be offered.
    Holding(Vec<u8>),
    /// The network or the decoding loop has ended.
    Ended,
}

/// What the pump asks for.
#[derive(Debug, PartialEq, Eq)]
pub enum PumpAction {
    /// Read what has come, `READ_BUFFER_SIZE` bytes at most, or wait until the
    /// decoding loop has ended.
    Read,
    /// Offer what the pump holds, with `Pump::offer`.
    Offer,
    /// The pump has ended.
    Finish,
}

/// The answers to what the pump asks for.
#[derive(Debug, PartialEq, Eq)]
pub enum PumpInput {
    /// The bytes that were read, `READ_BUFFER_SIZE` at most; none at the end of
    /// the stream.
    Read(Vec<u8>),
    /// Reading has failed.
    ReadFailed,
    /// The decoding loop has ended while the pump was waiting for bytes.
    LoopEnded,
    /// What became of the offer.
    Offered(Offer),
}

impl Pump {
    /// The bytes that the pump holds.
    pub open spec fn held(self) -> Seq<u8> {
        match self {
            Pump::Holding(bytes) => bytes@,
            _ => Seq::empty(),
        }
    }

    /// Whether the pump holds a piece that it could have read: neither an empty
    /// one nor one that is larger than what is read at once.
    pub open spec fn is_sound(self) -> bool {
        self is Holding ==> is_piece(self.held())
    }

    /// Starts the pump; its first action is `PumpAction::Read`.
    pub fn new() -> (pump: Pump)
        ensures
            pump == Pump::Reading,
            pump.is_sound(),
    {
        Pump::Reading
    }

    /// Goes on after an offer: to the next bytes if it was taken, with the same
    /// bytes if the channel was full, and to the end if the decoding loop has
    /// ended. The pump offers bytes only, so that bytes are what it is handed
    /// back; there is nothing to go on with otherwise.
    pub fn after_offer(offered: Offered<std::io::Result<Vec<u8>>>) -> (taken: Option<
        (Pump, PumpAction),
    >)
        ensures
            taken == match offered {
                Offered::Taken => Some((Pump::Reading, PumpAction::Read)),
                Offered::Full(Ok(bytes)) => Some((Pump::Holding(bytes), PumpAction::Offer)),
                Offered::Full(Err(_)) => None,
                Offered::Closed(_) => Some((Pump::Ended, PumpAction::Finish)),
            },
    {
        match offered {
            Offered::Taken => Some((Pump::Reading, PumpAction::Read)),
            Offered::Full(Ok(bytes)) => Some((Pump::Holding(bytes), PumpAction::Offer)),
            Offered::Full(Err(_)) => None,
            Offered::Closed(_) => Some((Pump::Ended, PumpAction::Finish)),
        }
    }

    /// Offers what the pump holds, if it holds anything, to the decoding loop:
    /// once, and exactly the bytes that it holds. Then goes on by what became
    /// of the offer, which depends on the loop. The channel never holds more
    /// pieces than it was made for. A pump that holds nothing does not touch it.
    pub fn offer(
        self,
        channel: &mut tokio::sync::mpsc::Sender<std::io::Result<Vec<u8>>>,
    ) -> (taken: Option<(Pump, PumpAction)>)
        ensures
            self is Holding ==> ({
                let (piece, outcome) = offers_made(*final(channel)).last();
                &&& offers_made(*final(channel)) == offers_made(*old(channel)).push(
                    (piece, outcome),
                )
                &&& piece == self.held()
                &&& taken == self.next(PumpInput::Offered(outcome))
                &&& pieces_waiting(*final(channel)) <= piece_bound(*final(channel))
            }),
            piece_bound(*final(channel)) == piece_bound(*old(channel)),
            self !is Holding ==> taken is None && *final(channel) == *old(channel),
    {
        match self {
            Pump::Holding(bytes) => {
                let offered = offer(channel, Ok(bytes));
                Pump::after_offer(offered)
            },
            _ => None,
        }
    }
}

/// How many of the pieces that the channel took are still in it.
pub open spec fn pieces_waiting(
    channel: tokio::sync::mpsc::Sender<std::io::Result<Vec<u8>>>,
) -> int {
    taken(offers_made(channel)).len() - pieces_passed(channel)
}

/// Whether these bytes can have been read at once.
pub open spec fn is_piece(bytes: Seq<u8>) -> bool {
    0 < bytes.len() <= READ_BUFFER_SIZE
}

impl Machine for Pump {
    type Input = PumpInput;

    type Action = PumpAction;

    open spec fn next(self, input: PumpInput) -> Option<(Pump, PumpAction)> {
        match self {
            Pump::Reading => match input {
                PumpInput::Read(bytes) => if is_piece(bytes@) {
                    Some((Pump::Holding(bytes), PumpAction::Offer))
                } else if bytes@.len() == 0 {
                    Some((Pump::Ended, PumpAction::Finish))
                } else {
                    None
                },
                PumpInput::ReadFailed => Some((Pump::Ended, PumpAction::Finish)),
                PumpInput::LoopEnded => Some((Pump::Ended, PumpAction::Finish)),
                _ => None,
            },
            Pump::Holding(bytes) => match input {
                PumpInput::Offered(Offer::Taken) => Some((Pump::Reading, PumpAction::Read)),
                PumpInput::Offered(Offer::Full) => Some((self, PumpAction::Offer)),
                PumpInput::Offered(Offer::Closed) => Some((Pump::Ended, PumpAction::Finish)),
                _ => None,
            },
            Pump::Ended => None,
        }
    }

    fn step(self, input: PumpInput) -> (taken: Option<(Pump, PumpAction)>) {
        match (self, input) {
            (Pump::Reading, PumpInput::Read(bytes)) => {
                if bytes.len() == 0 {
                    Some((Pump::Ended, PumpAction::Finish))
                } else if bytes.len() <= READ_BUFFER_SIZE {
                    Some((Pump::Holding(bytes), PumpAction::Offer))
                } else {
                    None
                }
            },
            (Pump::Reading, PumpInput::ReadFailed) => Some((Pump::Ended, PumpAction::Finish)),
            (Pump::Reading, PumpInput::LoopEnded) => Some((Pump::Ended, PumpAction::Finish)),
            (Pump::Holding(bytes), PumpInput::Offered(offer)) => match offer {
                Offer::Taken => Some((Pump::Reading, PumpAction::Read)),
                Offer::Full => Some((Pump::Holding(bytes), PumpAction::Offer)),
                Offer::Closed => Some((Pump::Ended, PumpAction::Finish)),
            },
            (_, _) => None,
        }
    }
}

/// The bytes that were read, one piece after the other.
pub open spec fn bytes_read(inputs: Seq<PumpInput>) -> Seq<u8>
    decreases inputs.len(),
{
    if inputs.len() == 0 {
        Seq::empty()
    } else {
        match inputs[0] {
            PumpInput::Read(bytes) => bytes@ + bytes_read(inputs.drop_first()),
            _ => bytes_read(inputs.drop_first()),
        }
    }
}

/// The offers that the pump makes while it gets these answers: each of them is
/// what it holds, with what became of it. These are the offers by which
/// `Pump::offer` lets those that were made to the channel grow.
pub open spec fn offers_of(pump: Pump, inputs: Seq<PumpInput>) -> Seq<(Seq<u8>, Offer)>
    decreases inputs.len(),
{
    if inputs.len() == 0 {
        Seq::empty()
    } else {
        match pump.next(inputs[0]) {
            Some((next, _)) => match inputs[0] {
                PumpInput::Offered(outcome) => seq![(pump.held(), outcome)] + offers_of(
                    next,
                    inputs.drop_first(),
                ),
                _ => offers_of(next, inputs.drop_first()),
            },
            None => Seq::empty(),
        }
    }
}

/// The bytes that the channel took of what it was offered, one piece after the
/// other.
pub open spec fn delivered(offers: Seq<(Seq<u8>, Offer)>) -> Seq<u8>
    decreases offers.len(),
{
    if offers.len() == 0 {
        Seq::empty()
    } else {
        let (piece, outcome) = offers[0];
        if outcome is Taken {
            piece + delivered(offers.drop_first())
        } else {
            delivered(offers.drop_first())
        }
    }
}

/// The bytes that were offered when the decoding loop had already ended.
pub open spec fn bytes_refused(pump: Pump, inputs: Seq<PumpInput>) -> Seq<u8>
    decreases inputs.len(),
{
    if inputs.len() == 0 {
        Seq::empty()
    } else if inputs[0] == PumpInput::Offered(Offer::Closed) {
        pump.held()
    } else {
        match pump.next(inputs[0]) {
            Some((next, _)) => bytes_refused(next, inputs.drop_first()),
            None => Seq::empty(),
        }
    }
}

/// No byte is lost, doubled or moved. Whatever the network and the decoding
/// loop do, the bytes that the channel took, followed by those that the pump
/// still holds, are the bytes that were read; only if the loop has ended are
/// the ones that it was offered last left over.
pub proof fn stream_is_kept(start: Pump, inputs: Seq<PumpInput>)
    requires
        run(start, inputs) is Some,
    ensures
        ({
            let (end, _) = run(start, inputs)->0;
            let taken = delivered(offers_of(start, inputs));
            &&& start.held() + bytes_read(inputs) == taken + bytes_refused(start, inputs)
                + end.held()
            &&& bytes_refused(start, inputs).len() > 0 ==> end is Ended && inputs.last()
                == PumpInput::Offered(Offer::Closed)
        }),
    decreases inputs.len(),
{
    if inputs.len() > 0 {
        let (middle, action) = start.next(inputs[0])->0;
        let others = inputs.drop_first();
        stream_is_kept(middle, others);
        let (end, _) = run(middle, others)->0;
        let all = start.held() + bytes_read(inputs);
        let offers = offers_of(start, inputs);
        let kept = delivered(offers) + bytes_refused(start, inputs) + end.held();
        if inputs[0] is Offered {
            assert(offers.drop_first() =~= offers_of(middle, others));
        }
        if middle is Ended {
            assert(others.len() == 0) by {
                if others.len() > 0 {
                    assert(middle.next(others[0]) is None);
                }
            }
        }
        assert(others.len() > 0 ==> inputs.last() == others.last());
        assert(all =~= kept);
    } else {
        let taken = delivered(offers_of(start, inputs));
        assert(start.held() + bytes_read(inputs) =~= taken + bytes_refused(start, inputs)
            + start.held());
    }
}

/// The offers of a run are those that `Pump::offer` makes to the channel: with
/// each answer they grow as it lets the channel's offers grow, by what the pump
/// holds together with what became of it, and otherwise they stay.
pub proof fn offers_follow_the_channel(start: Pump, inputs: Seq<PumpInput>, input: PumpInput)
    requires
        run(start, inputs) is Some,
        run(start, inputs.push(input)) is Some,
    ensures
        ({
            let (end, _) = run(start, inputs)->0;
            let before = offers_of(start, inputs);
            offers_of(start, inputs.push(input)) == match input {
                PumpInput::Offered(outcome) => before.push((end.held(), outcome)),
                _ => before,
            }
        }),
    decreases inputs.len(),
{
    let all = inputs.push(input);
    reveal_with_fuel(run, 2);
    reveal_with_fuel(offers_of, 2);
    if inputs.len() > 0 {
        let (middle, _) = start.next(inputs[0])->0;
        assert(all.drop_first() =~= inputs.drop_first().push(input));
        offers_follow_the_channel(middle, inputs.drop_first(), input);
    } else {
        assert(all.drop_first() =~= seq![]);
    }
    let (end, _) = run(start, inputs)->0;
    let before = offers_of(start, inputs);
    match input {
        PumpInput::Offered(outcome) => {
            assert(offers_of(start, all) =~= before.push((end.held(), outcome)));
        },
        _ => {
            assert(offers_of(start, all) =~= before);
        },
    }
}

/// At every moment the bytes that the channel took are the first of the bytes
/// that were read.
pub proof fn delivered_bytes_come_first(inputs: Seq<PumpInput>)
    requires
        run(Pump::Reading, inputs) is Some,
    ensures
        delivered(offers_of(Pump::Reading, inputs)).is_prefix_of(bytes_read(inputs)),
{
    stream_is_kept(Pump::Reading, inputs);
    let taken = delivered(offers_of(Pump::Reading, inputs));
    let (end, _) = run(Pump::Reading, inputs)->0;
    assert(Pump::Reading.held() + bytes_read(inputs) =~= bytes_read(inputs));
    assert(bytes_read(inputs) =~= taken + (bytes_refused(Pump::Reading, inputs) + end.held()));
}

/// When the stream has ended or could not be read further, or when the decoding
/// loop has ended while the pump was waiting, all that was read has been
/// delivered.
pub proof fn stream_is_delivered_to_its_end(inputs: Seq<PumpInput>)
    requires
        run(Pump::Reading, inputs) is Some,
        inputs.len() > 0,
        inputs.last() !is Offered,
        run(Pump::Reading, inputs) matches Some((end, _)) && end is Ended,
    ensures
        delivered(offers_of(Pump::Reading, inputs)) == bytes_read(inputs),
{
    stream_is_kept(Pump::Reading, inputs);
    assert(Pump::Reading.held() + bytes_read(inputs) =~= bytes_read(inputs));
    let taken = delivered(offers_of(Pump::Reading, inputs));
    assert(bytes_refused(Pump::Reading, inputs) =~= seq![]);
    assert(taken + bytes_refused(Pump::Reading, inputs) + Seq::<u8>::empty() =~= taken);
}

/// Whether `channels` is what becomes of the pump's end of the channel while the
/// pump makes one offer after the other.
pub open spec fn are_offers(
    channels: Seq<tokio::sync::mpsc::Sender<std::io::Result<Vec<u8>>>>,
) -> bool {
    &&& channels.len() > 0
    &&& forall|i: int|
        0 < i < channels.len() ==> piece_bound(#[trigger] channels[i]) == piece_bound(
            channels[i - 1],
        ) && pieces_waiting(channels[i]) <= piece_bound(channels[i])
}

/// However many offers the pump makes, no more pieces wait in the channel than
/// it was made for.
pub proof fn pieces_wait_within_bound(
    channels: Seq<tokio::sync::mpsc::Sender<std::io::Result<Vec<u8>>>>,
)
    requires
        are_offers(channels),
    ensures
        piece_bound(channels.last()) == piece_bound(channels[0]),
        channels.len() > 1 ==> pieces_waiting(channels.last()) <= piece_bound(channels[0]),
    decreases channels.len(),
{
    if channels.len() > 1 {
        pieces_wait_within_bound(channels.drop_last());
    }
}

/// What the pump offers is never empty and never larger than what is read at
/// once, and neither is what it holds.
pub proof fn pieces_have_their_size(start: Pump, inputs: Seq<PumpInput>)
    requires
        start.is_sound(),
        run(start, inputs) is Some,
    ensures
        ({
            let (end, _) = run(start, inputs)->0;
            &&& end.is_sound()
            &&& forall|i: int|
                0 <= i < offers_of(start, inputs).len() ==> is_piece(
                    (#[trigger] offers_of(start, inputs)[i]).0,
                )
        }),
    decreases inputs.len(),
{
    if inputs.len() > 0 {
        let (middle, action) = start.next(inputs[0])->0;
        pieces_have_their_size(middle, inputs.drop_first());
        let after = offers_of(middle, inputs.drop_first());
        assert forall|i: int| 0 <= i < offers_of(start, inputs).len() implies is_piece(
            (#[trigger] offers_of(start, inputs)[i]).0,
        ) by {
            if inputs[0] is Offered {
                assert(i > 0 ==> offers_of(start, inputs)[i] == after[i - 1]);
            } else {
                assert(offers_of(start, inputs)[i] == after[i]);
            }
        }
    }
}

/// The pump asks for more bytes exactly when it holds none, and offers exactly
/// when it holds some.
pub proof fn pump_reads_only_when_empty(before: Pump, input: PumpInput)
    requires
        before.next(input) is Some,
    ensures
        ({
            let (after, action) = before.next(input)->0;
            &&& action is Read <==> after is Reading
            &&& action is Offer <==> after is Holding
            &&& action is Finish <==> after is Ended
            &&& before is Holding ==> input is Offered
        }),
{
}

/// The loop that writes the user's messages to the network.
#[derive(Debug, Clone, Copy, PartialEq, Eq, Structural)]
pub enum Traffic {
    /// Whether it is to stop is being looked at.
    Polling,
    /// A message of the user is awaited, or a request to stop.
    Receiving,
    /// A message is being written.
    Writing,
    /// The end of the pump is awaited.
    Joining,
    Ended,
}

/// What the loop asks for.
#[derive(Debug, PartialEq, Eq)]
pub enum TrafficAction {
    /// Look whether the loop is to stop, with `Traffic::poll_stop`.
    PollStop,
    /// Wait for a message of the user, or until the loop is to stop.
    Receive,
    /// Write a message to the server.
    Write(ClientMsg),
    /// Wait until the pump has ended.
    JoinPump,
    /// The loop has ended.
    Finish(Result<(), VncError>),
}

/// The answers to what the loop asks for.
#[derive(Debug, PartialEq, Eq)]
pub enum TrafficInput {
    Stop(StopPoll),
    Message(ClientMsg),
    /// The message is written, or the pump has ended.
    Done,
    /// The message could not be written.
    WriteFailed(VncError),
}

impl Traffic {
    /// Starts the loop; its first action is `TrafficAction::PollStop`.
    pub fn new() -> (traffic: Traffic)
        ensures
            traffic == Traffic::Polling,
    {
        Traffic::Polling
    }

    /// Looks whether the loop is to stop, if that is what it waits for, and
    /// goes on by the answer, which depends on the holder of the other end of
    /// `stop_ch`; `step` says what follows from each.
    pub fn poll_stop(self, stop_ch: &mut tokio::sync::oneshot::Receiver<()>) -> (taken: Option<
        (Traffic, TrafficAction),
    >)
        ensures
            self is Polling ==> ({
                let poll = stop_answers(*final(stop_ch)).last();
                &&& stop_answers(*final(stop_ch)) == stop_answers(*old(stop_ch)).push(poll)
                &&& taken == self.next(TrafficInput::Stop(poll))
            }),
            self !is Polling ==> taken is None && *final(stop_ch) == *old(stop_ch),
    {
        match self {
            Traffic::Polling => {
                let poll = poll_stop(stop_ch);
                self.step(TrafficInput::Stop(poll))
            },
            _ => None,
        }
    }
}

impl Machine for Traffic {
    type Input = TrafficInput;

    type Action = TrafficAction;

    open spec fn next(self, input: TrafficInput) -> Option<(Traffic, TrafficAction)> {
        match self {
            Traffic::Polling => match input {
                TrafficInput::Stop(poll) => if poll is Empty {
                    Some((Traffic::Receiving, TrafficAction::Receive))
                } else {
                    Some((Traffic::Joining, TrafficAction::JoinPump))
                },
                _ => None,
            },
            Traffic::Receiving => match input {
                TrafficInput::Message(message) => Some(
                    (Traffic::Writing, TrafficAction::Write(message)),
                ),
                TrafficInput::Stop(poll) => if poll is Empty {
                    None
                } else {
                    Some((Traffic::Joining, TrafficAction::JoinPump))
                },
                _ => None,
            },
            Traffic::Writing => match input {
                TrafficInput::Done => Some((Traffic::Polling, TrafficAction::PollStop)),
                TrafficInput::WriteFailed(error) => Some(
                    (Traffic::Ended, TrafficAction::Finish(Err(error))),
                ),
                _ => None,
            },
            Traffic::Joining => match input {
                TrafficInput::Done => Some((Traffic::Ended, TrafficAction::Finish(Ok(())))),
                _ => None,
            },
            Traffic::Ended => None,
        }
    }

    fn step(self, input: TrafficInput) -> (taken: Option<(Traffic, TrafficAction)>) {
        match (self, input) {
            (Traffic::Polling, TrafficInput::Stop(StopPoll::Empty)) => {
                Some((Traffic::Receiving, TrafficAction::Receive))
            },
            (Traffic::Polling, TrafficInput::Stop(_)) => {
                Some((Traffic::Joining, TrafficAction::JoinPump))
            },
            (Traffic::Receiving, TrafficInput::Message(message)) => {
                Some((Traffic::Writing, TrafficAction::Write(message)))
            },
            (Traffic::Receiving, TrafficInput::Stop(StopPoll::Empty)) => None,
            (Traffic::Receiving, TrafficInput::Stop(_)) => {
                Some((Traffic::Joining, TrafficAction::JoinPump))
            },
            (Traffic::Writing, TrafficInput::Done) => {
                Some((Traffic::Polling, TrafficAction::PollStop))
            },
            (Traffic::Writing, TrafficInput::WriteFailed(error)) => {
                Some((Traffic::Ended, TrafficAction::Finish(Err(error))))
            },
            (Traffic::Joining, TrafficInput::Done) => {
                Some((Traffic::Ended, TrafficAction::Finish(Ok(()))))
            },
            (_, _) => None,
        }
    }
}

/// The messages that were received, in order.
pub open spec fn messages_received(inputs: Seq<TrafficInput>) -> Seq<ClientMsg>
    decreases inputs.len(),
{
    if inputs.len() == 0 {
        Seq::empty()
    } else {
        match inputs[0] {
            TrafficInput::Message(message) => seq![message] + messages_received(
                inputs.drop_first(),
            ),
            _ => messages_received(inputs.drop_first()),
        }
    }
}

/// The messages that were written, in order.
pub open spec fn messages_written(actions: Seq<TrafficAction>) -> Seq<ClientMsg>
    decreases actions.len(),
{
    if actions.len() == 0 {
        Seq::empty()
    } else {
        match actions[0] {
            TrafficAction::Write(message) => seq![message] + messages_written(actions.drop_first()),
            _ => messages_written(actions.drop_first()),
        }
    }
}

/// Every message of the user is written, once, as it was and in the order in
/// which the messages came.
pub proof fn messages_are_written_in_order(start: Traffic, inputs: Seq<TrafficInput>)
    requires
        run(start, inputs) is Some,
    ensures
        ({
            let (_, actions) = run(start, inputs)->0;
            messages_written(actions) == messages_received(inputs)
        }),
    decreases inputs.len(),
{
    if inputs.len() > 0 {
        let (middle, action) = start.next(inputs[0])->0;
        messages_are_written_in_order(middle, inputs.drop_first());
        let (_, after) = run(middle, inputs.drop_first())->0;
        assert((seq![action] + after).drop_first() =~= after);
    }
}

/// Told to stop, when it looks or while it waits for a message, the loop
/// receives and writes nothing more: it waits for the pump and ends without an
/// error.
pub proof fn stopped_traffic_only_waits_for_pump(
    start: Traffic,
    poll: StopPoll,
    inputs: Seq<TrafficInput>,
)
    requires
        start is Polling || start is Receiving,
        poll !is Empty,
        run(start, seq![TrafficInput::Stop(poll)] + inputs) is Some,
    ensures
        inputs =~= seq![] || inputs =~= seq![TrafficInput::Done],
        ({
            let (end, actions) = run(start, seq![TrafficInput::Stop(poll)] + inputs)->0;
            let whole = seq![TrafficAction::JoinPump, TrafficAction::Finish(Ok(()))];
            actions == whole.take(1 + inputs.len() as int)
        }),
{
    let all = seq![TrafficInput::Stop(poll)] + inputs;
    assert(all.drop_first() =~= inputs);
    let whole = seq![TrafficAction::JoinPump, TrafficAction::Finish(Ok(()))];
    let (_, actions) = run(start, all)->0;
    reveal_with_fuel(run, 4);
    if inputs.len() == 0 {
        assert(actions =~= whole.take(1));
    } else {
        let others = inputs.drop_first();
        assert(Traffic::Joining.next(inputs[0]) is Some);
        if others.len() > 0 {
            assert(Traffic::Ended.next(others[0]) is None);
        }
        assert(actions =~= whole.take(2));
    }
}

/// A stop does not cut the stream. A traffic loop that is told to stop, be it at
/// once, ends only after the pump; and a pump that comes to the end of the
/// stream has delivered all that was read.
pub proof fn stopped_connection_delivers_what_it_reads(
    traffic: Traffic,
    poll: StopPoll,
    pumped: Seq<PumpInput>,
)
    requires
        traffic is Polling || traffic is Receiving,
        poll !is Empty,
        run(Pump::Reading, pumped) matches Some((end, _)) && end is Ended,
        pumped.len() > 0,
        pumped.last() !is Offered,
    ensures
        run(traffic, seq![TrafficInput::Stop(poll)]) == Some(
            (Traffic::Joining, seq![TrafficAction::JoinPump]),
        ),
        forall|input: TrafficInput|
            (#[trigger] Traffic::Joining.next(input)) is Some ==> input == TrafficInput::Done,
        delivered(offers_of(Pump::Reading, pumped)) == bytes_read(pumped),
{
    let stop = seq![TrafficInput::Stop(poll)];
    reveal_with_fuel(run, 2);
    assert(stop.drop_first() =~= seq![]);
    let (_, actions) = run(traffic, stop)->0;
    assert(actions =~= seq![TrafficAction::JoinPump]);
    stream_is_delivered_to_its_end(pumped);
}

/// A message that cannot be written ends the loop with that error; nothing else
/// ends it with an error.
pub proof fn only_failed_writes_are_errors(before: Traffic, input: TrafficInput)
    requires
        before.next(input) is Some,
    ensures
        ({
            let (after, action) = before.next(input)->0;
            &&& action is Finish <==> after is Ended
            &&& forall|error: VncError|
                action == TrafficAction::Finish(Err(error)) <==> input == TrafficInput::WriteFailed(
                    error,
                )
        }),
{
}

/// What the pump has asked for is what it takes: while it reads, bytes up to the
/// size of its buffer, or none at the end of the stream, or that there are none
/// to be had; after an offer, whatever became of it; and at the end, nothing.
pub proof fn pump_takes_what_it_asked_for(before: Pump, input: PumpInput, answer: PumpInput)
    requires
        before.next(input) is Some,
    ensures
        ({
            let (after, action) = before.next(input)->0;
            after.next(answer) is Some <==> match action {
                PumpAction::Read => answer is ReadFailed || answer is LoopEnded || (
                answer matches PumpInput::Read(bytes) && bytes@.len() <= 65535),
                PumpAction::Offer => answer is Offered,
                PumpAction::Finish => false,
            }
        }),
{
}

/// The pump takes every piece that a read can give, from one byte to a full
/// buffer, and holds exactly those bytes. It keeps them while the channel is
/// full, and reads on once the channel has taken them. It ends with the stream,
/// with a failure, and with the decoding loop.
pub proof fn pump_takes_every_piece(bytes: Vec<u8>)
    ensures
        0 < bytes@.len() <= 65535 ==> Pump::Reading.next(PumpInput::Read(bytes)) == Some(
            (Pump::Holding(bytes), PumpAction::Offer),
        ),
        bytes@.len() == 0 ==> Pump::Reading.next(PumpInput::Read(bytes)) == Some(
            (Pump::Ended, PumpAction::Finish),
        ),
        bytes@.len() > 65535 ==> Pump::Reading.next(PumpInput::Read(bytes)) is None,
        Pump::Reading.next(PumpInput::ReadFailed) == Some((Pump::Ended, PumpAction::Finish)),
        Pump::Reading.next(PumpInput::LoopEnded) == Some((Pump::Ended, PumpAction::Finish)),
        Pump::Holding(bytes).next(PumpInput::Offered(Offer::Taken)) == Some(
            (Pump::Reading, PumpAction::Read),
        ),
        Pump::Holding(bytes).next(PumpInput::Offered(Offer::Full)) == Some(
            (Pump::Holding(bytes), PumpAction::Offer),
        ),
        Pump::Holding(bytes).next(PumpInput::Offered(Offer::Closed)) == Some(
            (Pump::Ended, PumpAction::Finish),
        ),
        Pump::Holding(bytes).held() == bytes@,
{
}

/// The answers that a pump gets that reads these pieces one after the other, and
/// finds the channel full as often as the number beside each piece says before
/// there is room for it.
pub open spec fn answers_for(pieces: Seq<(Vec<u8>, nat)>) -> Seq<PumpInput>
    decreases pieces.len(),
{
    if pieces.len() == 0 {
        Seq::empty()
    } else {
        let (bytes, refusals) = pieces[0];
        seq![PumpInput::Read(bytes)] + (Seq::new(
            refusals,
            |i: int| PumpInput::Offered(Offer::Full),
        ) + (seq![PumpInput::Offered(Offer::Taken)] + answers_for(pieces.drop_first())))
    }
}

/// All the bytes of some pieces.
pub open spec fn joined(pieces: Seq<(Vec<u8>, nat)>) -> Seq<u8>
    decreases pieces.len(),
{
    if pieces.len() == 0 {
        Seq::empty()
    } else {
        let (bytes, _) = pieces[0];
        bytes@ + joined(pieces.drop_first())
    }
}

proof fn refused_pump_keeps_its_bytes(bytes: Vec<u8>, refusals: nat, others: Seq<PumpInput>)
    requires
        run(Pump::Holding(bytes), others) is Some,
    ensures
        ({
            let refused = Seq::new(refusals, |i: int| PumpInput::Offered(Offer::Full));
            let held = Pump::Holding(bytes);
            let (last, _) = run(held, others)->0;
            &&& run(held, refused + others) matches Some((end, _)) && end == last
            &&& delivered(offers_of(held, refused + others)) == delivered(offers_of(held, others))
        }),
    decreases refusals,
{
    let refused = Seq::new(refusals, |i: int| PumpInput::Offered(Offer::Full));
    let held = Pump::Holding(bytes);
    if refusals == 0 {
        assert(refused + others =~= others);
    } else {
        let fewer = (refusals - 1) as nat;
        let less = Seq::new(fewer, |i: int| PumpInput::Offered(Offer::Full));
        refused_pump_keeps_its_bytes(bytes, fewer, others);
        assert((refused + others).drop_first() =~= less + others);
        assert(held.next((refused + others)[0]) == Some((held, PumpAction::Offer)));
        let offers = offers_of(held, refused + others);
        assert(offers.drop_first() =~= offers_of(held, less + others));
    }
}

/// Every stream goes through. Whatever the server sends, in pieces of any size
/// that a read can give, and however often the channel is full, the pump takes
/// all of it and goes on reading, and the channel has taken exactly the bytes
/// that the server sent, in order.
pub proof fn every_stream_goes_through(pieces: Seq<(Vec<u8>, nat)>)
    requires
        forall|i: int| 0 <= i < pieces.len() ==> 0 < (#[trigger] pieces[i]).0@.len() <= 65535,
    ensures
        run(Pump::Reading, answers_for(pieces)) matches Some((end, _)) && end is Reading,
        delivered(offers_of(Pump::Reading, answers_for(pieces))) == joined(pieces),
    decreases pieces.len(),
{
    if pieces.len() > 0 {
        let (bytes, refusals) = pieces[0];
        let others = pieces.drop_first();
        assert forall|i: int| 0 <= i < others.len() implies 0 < (
        #[trigger] others[i]).0@.len() <= 65535 by {
            assert(others[i] == pieces[i + 1]);
        }
        every_stream_goes_through(others);
        let held = Pump::Holding(bytes);
        let taking = seq![PumpInput::Offered(Offer::Taken)] + answers_for(others);
        let refused = Seq::new(refusals, |i: int| PumpInput::Offered(Offer::Full));
        assert(taking.drop_first() =~= answers_for(others));
        assert(held.next(taking[0]) == Some((Pump::Reading, PumpAction::Read)));
        let offers = offers_of(held, taking);
        assert(offers.drop_first() =~= offers_of(Pump::Reading, answers_for(others)));
        assert(delivered(offers) == bytes@ + joined(others));
        refused_pump_keeps_its_bytes(bytes, refusals, taking);
        let all = answers_for(pieces);
        assert(all.drop_first() =~= refused + taking);
        assert(Pump::Reading.next(all[0]) == Some((held, PumpAction::Offer)));
    }
}

/// What the loop has asked for is what it takes: whether it is to stop, a
/// message or that it is to stop, how a write went, and the end of the pump.
pub proof fn traffic_takes_what_it_asked_for(
    before: Traffic,
    input: TrafficInput,
    answer: TrafficInput,
)
    requires
        before.next(input) is Some,
    ensures
        ({
            let (after, action) = before.next(input)->0;
            after.next(answer) is Some <==> match action {
                TrafficAction::PollStop => answer is Stop,
                TrafficAction::Receive => answer is Message || (answer matches TrafficInput::Stop(
                    poll,
                ) && poll !is Empty),
                TrafficAction::Write(_) => answer is Done || answer is WriteFailed,
                TrafficAction::JoinPump => answer is Done,
                TrafficAction::Finish(_) => false,
            }
        }),
{
}

/// Whatever message comes, it is written, and once it is written the loop looks
/// whether it is to stop and, if not, waits for the next. A write that fails
/// ends the loop with that failure.
pub proof fn traffic_goes_on_after_every_message(message: ClientMsg, error: VncError)
    ensures
        Traffic::Polling.next(TrafficInput::Stop(StopPoll::Empty)) == Some(
            (Traffic::Receiving, TrafficAction::Receive),
        ),
        run(Traffic::Receiving, seq![TrafficInput::Message(message), TrafficInput::Done]) == Some(
            (Traffic::Polling, seq![TrafficAction::Write(message), TrafficAction::PollStop]),
        ),
        run(
            Traffic::Receiving,
            seq![TrafficInput::Message(message), TrafficInput::WriteFailed(error)],
        ) == Some(
            (
                Traffic::Ended,
                seq![TrafficAction::Write(message), TrafficAction::Finish(Err(error))],
            ),
        ),
{
    reveal_with_fuel(run, 3);
    let written = seq![TrafficInput::Message(message), TrafficInput::Done];
    assert(written.drop_first() =~= seq![TrafficInput::Done]);
    assert(written.drop_first().drop_first() =~= seq![]);
    let (_, actions) = run(Traffic::Receiving, written)->0;
    assert(actions =~= seq![TrafficAction::Write(message), TrafficAction::PollStop]);
    let broken = seq![TrafficInput::Message(message), TrafficInput::WriteFailed(error)];
    assert(broken.drop_first() =~= seq![TrafficInput::WriteFailed(error)]);
    assert(broken.drop_first().drop_first() =~= seq![]);
    let (_, last) = run(Traffic::Receiving, broken)->0;
    assert(last =~= seq![TrafficAction::Write(message), TrafficAction::Finish(Err(error))]);
}

/// The answers that the loop gets while the user sends these messages, nothing
/// fails and nobody asks it to stop.
pub open spec fn answers_of_user(messages: Seq<ClientMsg>) -> Seq<TrafficInput>
    decreases messages.len(),
{
    if messages.len() == 0 {
        Seq::empty()
    } else {
        seq![
            TrafficInput::Stop(StopPoll::Empty),
            TrafficInput::Message(messages[0]),
            TrafficInput::Done,
        ] + answers_of_user(messages.drop_first())
    }
}

/// As long as nobody asks it to stop, the loop writes every message of the user,
/// whatever they are and however many, in order, and goes on.
pub proof fn every_message_is_written(messages: Seq<ClientMsg>)
    ensures
        run(Traffic::Polling, answers_of_user(messages)) matches Some((end, actions)) && {
            &&& end is Polling
            &&& messages_written(actions) == messages
        },
    decreases messages.len(),
{
    if messages.len() > 0 {
        let message = messages[0];
        let others = messages.drop_first();
        let first = seq![
            TrafficInput::Stop(StopPoll::Empty),
            TrafficInput::Message(message),
            TrafficInput::Done,
        ];
        every_message_is_written(others);
        reveal_with_fuel(run, 4);
        assert(first.drop_first() =~= seq![TrafficInput::Message(message), TrafficInput::Done]);
        assert(first.drop_first().drop_first() =~= seq![TrafficInput::Done]);
        assert(first.drop_first().drop_first().drop_first() =~= seq![]);
        let (_, actions) = run(Traffic::Polling, first)->0;
        let write = TrafficAction::Write(message);
        assert(actions =~= seq![TrafficAction::Receive, write, TrafficAction::PollStop]);
        run_in_two_parts(Traffic::Polling, first, answers_of_user(others));
        let (_, after) = run(Traffic::Polling, answers_of_user(others))->0;
        let all = actions + after;
        reveal_with_fuel(messages_written, 4);
        assert(all.drop_first() =~= seq![write, TrafficAction::PollStop] + after);
        assert(all.drop_first().drop_first() =~= seq![TrafficAction::PollStop] + after);
        assert(all.drop_first().drop_first().drop_first() =~= after);
        assert(messages_written(all) =~= messages);
    }
}

/// The loop ends without an error only after it was told to stop: the answer
/// before the last was a stop, and the last was the end of the pump.
pub proof fn traffic_ends_well_only_if_stopped(start: Traffic, inputs: Seq<TrafficInput>)
    requires
        start is Polling || start is Receiving || start is Writing,
        run(start, inputs) matches Some((_, actions)) && actions.len() > 0 && actions.last()
            == TrafficAction::Finish(Ok(())),
    ensures
        inputs.len() >= 2,
        inputs.last() == TrafficInput::Done,
        inputs[inputs.len() - 2] matches TrafficInput::Stop(poll) && poll !is Empty,
    decreases inputs.len(),
{
    let (middle, action) = start.next(inputs[0])->0;
    let others = inputs.drop_first();
    let (end, after) = run(middle, others)->0;
    let actions = seq![action] + after;
    if others.len() == 0 {
        assert(actions.last() == action);
    } else {
        assert(middle.next(others[0]) is Some);
        assert(after.len() > 0);
        assert(actions.last() == after.last());
        if middle is Joining {
            let (last, _) = middle.next(others[0])->0;
            let rest = others.drop_first();
            assert(run(last, rest) is Some);
            if rest.len() > 0 {
                assert(last.next(rest[0]) is None);
            }
        } else {
            traffic_ends_well_only_if_stopped(middle, others);
            assert(inputs[inputs.len() - 2] == others[others.len() - 2]);
        }
    }
}

} // verus!
