//! The calls into tokio and the standard library that the verified code makes.
//!
//! Nothing that this file claims of them is proved: each item says what it
//! claims of the function that it calls.
//!
//! What a channel answers depends on the task at its other end. What is known
//! of every answer is that it was given, and to what, so each end of a channel
//! has a name for what it was asked and has answered so far.
use crate::types::{taken, ClientMsg, Offer, Polled, StopPoll, VncEvent};
use std::sync::Arc;
use vstd::prelude::*;

verus! {

/// The characters that `String::from_utf8_lossy` makes of a sequence of bytes.
pub uninterp spec fn utf8_lossy(bytes: Seq<u8>) -> Seq<char>;

/// Calls `String::from_utf8_lossy` of the standard library. Its result depends
/// on the bytes alone and is named `utf8_lossy`; bytes that are valid UTF-8 are
/// decoded as they stand.
#[verifier::external_body]
pub(crate) fn text_from_utf8_lossy(bytes: &[u8]) -> (text: String)
    ensures
        text@ == utf8_lossy(bytes@),
        vstd::utf8::valid_utf8(bytes@) ==> text@ == vstd::utf8::decode_utf8(bytes@),
{
    String::from_utf8_lossy(bytes).into_owned()
}

/// tokio's error of a refused send. Opaque.
#[verifier::external_type_specification]
#[verifier::external_body]
#[verifier::reject_recursive_types(T)]
pub struct ExSendError<T>(tokio::sync::mpsc::error::SendError<T>);

/// The receiving end of tokio's one-shot channel. Opaque.
#[verifier::external_type_specification]
#[verifier::external_body]
#[verifier::reject_recursive_types(T)]
pub struct ExOneshotReceiver<T>(tokio::sync::oneshot::Receiver<T>);

/// The error with which waiting on such a channel ends. Opaque. No function here
/// uses it: it stands in the receiving end's impl of `Future`, and the type
/// cannot be declared without it.
#[verifier::external_type_specification]
#[verifier::external_body]
pub struct ExOneshotRecvError(tokio::sync::oneshot::error::RecvError);

/// The answers that `poll_stop` has had of this end of a channel, in order.
pub uninterp spec fn stop_answers(stop_ch: tokio::sync::oneshot::Receiver<()>) -> Seq<StopPoll>;

/// Calls `tokio::sync::oneshot::Receiver::try_recv`, once, and tells its three
/// results apart. Which one comes depends on what the holder of the sending end
/// has done by then; it is one more answer of this end.
#[verifier::external_body]
pub(crate) fn poll_stop(stop_ch: &mut tokio::sync::oneshot::Receiver<()>) -> (poll: StopPoll)
    ensures
        stop_answers(*final(stop_ch)) == stop_answers(*old(stop_ch)).push(poll),
{
    match stop_ch.try_recv() {
        Ok(()) => StopPoll::Requested,
        Err(tokio::sync::oneshot::error::TryRecvError::Empty) => StopPoll::Empty,
        Err(tokio::sync::oneshot::error::TryRecvError::Closed) => StopPoll::Closed,
    }
}

/// The sending end of tokio's bounded channel. Opaque.
#[verifier::external_type_specification]
#[verifier::external_body]
#[verifier::reject_recursive_types(T)]
pub struct ExSender<T>(tokio::sync::mpsc::Sender<T>);

/// The standard library's I/O error. Opaque.
#[verifier::external_type_specification]
#[verifier::external_body]
pub struct ExIoError(std::io::Error);

/// What became of a message that was offered to a channel; one that was not
/// taken is handed back.
pub enum Offered<T> {
    Taken,
    Full(T),
    Closed(T),
}

impl<T> Offered<T> {
    /// The same without the message.
    pub open spec fn outcome(self) -> Offer {
        match self {
            Offered::Taken => Offer::Taken,
            Offered::Full(_) => Offer::Full,
            Offered::Closed(_) => Offer::Closed,
        }
    }
}

/// The pieces that were offered to this end of the channel of bytes, in order,
/// and what became of each.
pub uninterp spec fn offers_made(
    channel: tokio::sync::mpsc::Sender<std::io::Result<Vec<u8>>>,
) -> Seq<(Seq<u8>, Offer)>;

/// How many of the pieces that the channel took through this end had left it
/// again when this end was last used.
pub uninterp spec fn pieces_passed(
    channel: tokio::sync::mpsc::Sender<std::io::Result<Vec<u8>>>,
) -> nat;

/// How many messages the channel holds at most.
pub uninterp spec fn piece_bound(
    channel: tokio::sync::mpsc::Sender<std::io::Result<Vec<u8>>>,
) -> nat;

/// Calls `tokio::sync::mpsc::channel` for the bytes of the network. It panics
/// without room for a message, or with room for more than its counter can
/// count. The channel is empty and holds as many messages as it was made for.
#[verifier::external_body]
pub(crate) fn piece_channel(bound: usize) -> (ends: (
    tokio::sync::mpsc::Sender<std::io::Result<Vec<u8>>>,
    tokio::sync::mpsc::Receiver<std::io::Result<Vec<u8>>>,
))
    requires
        0 < bound <= usize::MAX / 8,
    ensures
        offers_made(ends.0) == Seq::<(Seq<u8>, Offer)>::empty(),
        pieces_passed(ends.0) == 0,
        piece_bound(ends.0) == bound,
{
    tokio::sync::mpsc::channel(bound)
}

/// Calls `tokio::sync::mpsc::Sender::try_send`, once, and tells its three
/// results apart. Which one comes depends on the channel's other end; it is one
/// more offer that was made to this end. A message that the channel does not
/// take is handed back as it was. What was taken and has not left the channel
/// is never more than the channel holds.
#[verifier::external_body]
pub(crate) fn offer(
    channel: &mut tokio::sync::mpsc::Sender<std::io::Result<Vec<u8>>>,
    message: std::io::Result<Vec<u8>>,
) -> (offered: Offered<std::io::Result<Vec<u8>>>)
    ensures
        message matches Ok(bytes) ==> offers_made(*final(channel)) == offers_made(
            *old(channel),
        ).push((bytes@, offered.outcome())),
        offered matches Offered::Full(returned) ==> returned == message,
        offered matches Offered::Closed(returned) ==> returned == message,
        piece_bound(*final(channel)) == piece_bound(*old(channel)),
        pieces_passed(*old(channel)) <= pieces_passed(*final(channel)),
        pieces_passed(*final(channel)) <= taken(offers_made(*final(channel))).len(),
        taken(offers_made(*final(channel))).len() <= pieces_passed(*final(channel)) + piece_bound(
            *final(channel),
        ),
{
    match channel.try_send(message) {
        Ok(()) => Offered::Taken,
        Err(tokio::sync::mpsc::error::TrySendError::Full(returned)) => Offered::Full(returned),
        Err(tokio::sync::mpsc::error::TrySendError::Closed(returned)) => Offered::Closed(returned),
    }
}

/// The messages that were offered to this end of the channel of messages, in
/// order, and what became of each.
pub uninterp spec fn message_offers(input_ch: tokio::sync::mpsc::Sender<ClientMsg>) -> Seq<
    (ClientMsg, Offer),
>;

/// How many of the messages that the channel took through this end by these
/// offers had left it again when this end was last used.
pub uninterp spec fn messages_passed(input_ch: tokio::sync::mpsc::Sender<ClientMsg>) -> nat;

/// How many messages the channel holds at most.
pub uninterp spec fn message_bound(input_ch: tokio::sync::mpsc::Sender<ClientMsg>) -> nat;

/// Calls `tokio::sync::mpsc::channel` for the messages of the user, with what is
/// claimed of it as of the channel of bytes.
#[verifier::external_body]
pub(crate) fn message_channel(bound: usize) -> (ends: (
    tokio::sync::mpsc::Sender<ClientMsg>,
    tokio::sync::mpsc::Receiver<ClientMsg>,
))
    requires
        0 < bound <= usize::MAX / 8,
    ensures
        message_offers(ends.0) == Seq::<(ClientMsg, Offer)>::empty(),
        messages_passed(ends.0) == 0,
        message_bound(ends.0) == bound,
{
    tokio::sync::mpsc::channel(bound)
}

/// Calls `tokio::sync::mpsc::Sender::try_send` for a message of the user, with
/// what is claimed of it for bytes.
#[verifier::external_body]
pub(crate) fn offer_message(
    input_ch: &mut tokio::sync::mpsc::Sender<ClientMsg>,
    message: ClientMsg,
) -> (offered: Offered<ClientMsg>)
    ensures
        message_offers(*final(input_ch)) == message_offers(*old(input_ch)).push(
            (message, offered.outcome()),
        ),
        offered matches Offered::Full(returned) ==> returned == message,
        offered matches Offered::Closed(returned) ==> returned == message,
        message_bound(*final(input_ch)) == message_bound(*old(input_ch)),
        messages_passed(*old(input_ch)) <= messages_passed(*final(input_ch)),
        messages_passed(*final(input_ch)) <= taken(message_offers(*final(input_ch))).len(),
        taken(message_offers(*final(input_ch))).len() <= messages_passed(*final(input_ch))
            + message_bound(*final(input_ch)),
{
    match input_ch.try_send(message) {
        Ok(()) => Offered::Taken,
        Err(tokio::sync::mpsc::error::TrySendError::Full(returned)) => Offered::Full(returned),
        Err(tokio::sync::mpsc::error::TrySendError::Closed(returned)) => Offered::Closed(returned),
    }
}

/// The receiving end of tokio's bounded channel. Opaque.
#[verifier::external_type_specification]
#[verifier::external_body]
#[verifier::reject_recursive_types(T)]
pub struct ExReceiver<T>(tokio::sync::mpsc::Receiver<T>);

/// The sending end of tokio's one-shot channel. Opaque.
#[verifier::external_type_specification]
#[verifier::external_body]
#[verifier::reject_recursive_types(T)]
pub struct ExOneshotSender<T>(tokio::sync::oneshot::Sender<T>);

/// tokio's lock. Opaque.
#[verifier::external_type_specification]
#[verifier::external_body]
#[verifier::reject_recursive_types(T)]
pub struct ExMutex<T: ?Sized>(tokio::sync::Mutex<T>);

/// The standard library's handle by which a waiting task is woken. Opaque.
#[verifier::external_type_specification]
#[verifier::external_body]
pub struct ExWaker(std::task::Waker);

/// The answers that `poll_channel` and `wait_channel` have had of this end of
/// the channel of events, in order.
pub uninterp spec fn event_answers(output_ch: tokio::sync::mpsc::Receiver<VncEvent>) -> Seq<Polled>;

/// The events that have left the channel by this end, in order.
pub uninterp spec fn events_given(output_ch: tokio::sync::mpsc::Receiver<VncEvent>) -> Seq<
    VncEvent,
>;

/// The events that had been put into the channel when this end was last asked,
/// in the order in which they were put there.
pub uninterp spec fn events_sent(output_ch: tokio::sync::mpsc::Receiver<VncEvent>) -> Seq<VncEvent>;

/// How many events the channel holds at most.
pub uninterp spec fn event_bound(output_ch: tokio::sync::mpsc::Receiver<VncEvent>) -> nat;

/// The wakers that were handed to this end with a question that it answered
/// with nothing yet, in order.
pub uninterp spec fn wakers_kept(output_ch: tokio::sync::mpsc::Receiver<VncEvent>) -> Seq<
    std::task::Waker,
>;

/// Calls `tokio::sync::mpsc::channel` for the events, with what is claimed of it
/// as of the channel of bytes.
#[verifier::external_body]
pub(crate) fn event_channel(bound: usize) -> (ends: (
    tokio::sync::mpsc::Sender<VncEvent>,
    tokio::sync::mpsc::Receiver<VncEvent>,
))
    requires
        0 < bound <= usize::MAX / 8,
    ensures
        event_answers(ends.1) == Seq::<Polled>::empty(),
        events_given(ends.1) == Seq::<VncEvent>::empty(),
        events_sent(ends.1) == Seq::<VncEvent>::empty(),
        event_bound(ends.1) == bound,
        wakers_kept(ends.1) == Seq::<std::task::Waker>::empty(),
{
    tokio::sync::mpsc::channel(bound)
}

/// Calls `tokio::sync::mpsc::Receiver::try_recv` on the channel of events, once,
/// and tells its three results apart. Which one comes depends on what the tasks
/// at the other end have sent by then; it is one more answer of this end. What
/// has been sent can only have become more. It becomes available in the order in
/// which it was sent, each event once, and no more of it waits than the channel
/// holds. That there is no event is never said while one is waiting. No waker is
/// handed over.
#[verifier::external_body]
pub(crate) fn poll_channel(output_ch: &mut tokio::sync::mpsc::Receiver<VncEvent>) -> (polled:
    Polled)
    ensures
        event_answers(*final(output_ch)) == event_answers(*old(output_ch)).push(polled),
        events_given(*final(output_ch)) == match polled {
            Polled::Event(event) => events_given(*old(output_ch)).push(event),
            _ => events_given(*old(output_ch)),
        },
        events_sent(*old(output_ch)).is_prefix_of(events_sent(*final(output_ch))),
        events_given(*final(output_ch)).is_prefix_of(events_sent(*final(output_ch))),
        event_bound(*final(output_ch)) == event_bound(*old(output_ch)),
        events_sent(*final(output_ch)).len() <= events_given(*final(output_ch)).len()
            + event_bound(*final(output_ch)),
        polled !is Event ==> events_given(*final(output_ch)) == events_sent(*final(output_ch)),
        wakers_kept(*final(output_ch)) == wakers_kept(*old(output_ch)),
{
    match output_ch.try_recv() {
        Ok(event) => Polled::Event(event),
        Err(tokio::sync::mpsc::error::TryRecvError::Empty) => Polled::Empty,
        Err(tokio::sync::mpsc::error::TryRecvError::Disconnected) => Polled::Disconnected,
    }
}

/// Calls `tokio::sync::mpsc::Receiver::poll_recv` on the channel of events, once,
/// and tells its three results apart. The same is claimed of it as of
/// `try_recv`, but for two things. It may say that there is no event yet while
/// one is waiting; only when it reports the channel as disconnected has all been
/// received. And if it has no event yet, it has been handed `waker`, by which
/// the task that waits is woken to ask again; nothing is claimed of when that
/// happens.
#[verifier::external_body]
pub(crate) fn wait_channel(
    output_ch: &mut tokio::sync::mpsc::Receiver<VncEvent>,
    waker: &std::task::Waker,
) -> (polled: Polled)
    ensures
        event_answers(*final(output_ch)) == event_answers(*old(output_ch)).push(polled),
        events_given(*final(output_ch)) == match polled {
            Polled::Event(event) => events_given(*old(output_ch)).push(event),
            _ => events_given(*old(output_ch)),
        },
        events_sent(*old(output_ch)).is_prefix_of(events_sent(*final(output_ch))),
        events_given(*final(output_ch)).is_prefix_of(events_sent(*final(output_ch))),
        event_bound(*final(output_ch)) == event_bound(*old(output_ch)),
        events_sent(*final(output_ch)).len() <= events_given(*final(output_ch)).len()
            + event_bound(*final(output_ch)),
        polled is Disconnected ==> events_given(*final(output_ch)) == events_sent(
            *final(output_ch),
        ),
        wakers_kept(*final(output_ch)) == match polled {
            Polled::Empty => wakers_kept(*old(output_ch)).push(*waker),
            _ => wakers_kept(*old(output_ch)),
        },
{
    match output_ch.poll_recv(&mut std::task::Context::from_waker(waker)) {
        std::task::Poll::Ready(Some(event)) => Polled::Event(event),
        std::task::Poll::Ready(None) => Polled::Disconnected,
        std::task::Poll::Pending => Polled::Empty,
    }
}

/// The ends over which tasks were told to stop, in order. Only `send_stop` adds
/// to it.
#[derive(Clone, Copy)]
pub struct StopLog {
    sent: Ghost<Seq<tokio::sync::oneshot::Sender<()>>>,
}

impl StopLog {
    /// The ends on which a signal was sent, the earliest first.
    pub closed spec fn sent(self) -> Seq<tokio::sync::oneshot::Sender<()>> {
        self.sent@
    }

    /// A log of no signals.
    pub fn new() -> (log: StopLog)
        ensures
            log.sent() == Seq::<tokio::sync::oneshot::Sender<()>>::empty(),
    {
        StopLog { sent: Ghost(Seq::empty()) }
    }
}

/// Calls `tokio::sync::oneshot::Sender::send` on the given end, which is
/// consumed by it, so that nothing is sent on it twice. The log says on which
/// end that was, and after which others. Whether the task was still there to be
/// told depends on the task, and nothing is claimed of it.
#[verifier::external_body]
pub(crate) fn send_stop(stop: tokio::sync::oneshot::Sender<()>, log: &mut StopLog)
    ensures
        final(log).sent() == old(log).sent().push(stop),
{
    log.sent = Ghost(log.sent@.push(stop));
    let _ = stop.send(());
}

/// Calls `Arc::clone` of the standard library: another handle to the same value.
#[verifier::external_body]
pub(crate) fn share<T>(handle: &Arc<T>) -> (other: Arc<T>)
    ensures
        other == *handle,
{
    Arc::clone(handle)
}

} // verus!
