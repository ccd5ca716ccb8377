//! The client that the user holds while a connection runs.
use crate::decoding::{ReadAction, ReadInput, ReadLoop, ReadPhase};
use crate::handshake::{Handshake, Session};
use crate::machine::{run, Machine};
use crate::outside::{
    event_answers, event_bound, event_channel, events_given, events_sent, message_bound,
    message_channel, message_offers, messages_passed, offer_message, offers_made, piece_bound,
    piece_channel, poll_channel, send_stop, share, utf8_lossy, wait_channel, wakers_kept, Offered,
    StopLog,
};
use crate::traffic::{
    are_offers, pieces_wait_within_bound, pieces_waiting, Pump, PumpAction, PumpInput, Traffic,
    TrafficAction, TrafficInput,
};
use crate::types::{
    taken, ClientKeyEvent, ClientMouseEvent, ClientMsg, Offer, Polled, Screen, StopPoll, VncError, VncEvent, X11Event, CHANNEL_SIZE,
};
use std::sync::Arc;
use tokio::sync::{mpsc, oneshot, Mutex};
use vstd::prelude::*;

verus! {

/// Both ends of the channels that run through a connection.
pub struct Channels {
    /// Carries the bytes of the network to the decoding loop.
    pub conn_ch: (mpsc::Sender<std::io::Result<Vec<u8>>>, mpsc::Receiver<std::io::Result<Vec<u8>>>),
    /// Carries the user's messages to the traffic loop.
    pub input_ch: (mpsc::Sender<ClientMsg>, mpsc::Receiver<ClientMsg>),
    /// Carries the events to the user.
    pub output_ch: (mpsc::Sender<VncEvent>, mpsc::Receiver<VncEvent>),
}

impl Channels {
    /// Whether the two ends of each channel were made together, as the ends of
    /// one channel.
    pub closed spec fn ends_belong_together(self) -> bool {
        &&& call_ensures(piece_channel, (CHANNEL_SIZE,), self.conn_ch)
        &&& call_ensures(message_channel, (CHANNEL_SIZE,), self.input_ch)
        &&& call_ensures(event_channel, (CHANNEL_SIZE,), self.output_ch)
    }

    /// Makes the channels of a connection. Nothing is in them, and each of them
    /// holds `CHANNEL_SIZE` items at most. What goes in at one end of a channel
    /// comes out at its other end, not at that of another channel.
    pub fn new() -> (channels: Channels)
        ensures
            offers_made(channels.conn_ch.0) == Seq::<(Seq<u8>, Offer)>::empty(),
            pieces_waiting(channels.conn_ch.0) == 0,
            piece_bound(channels.conn_ch.0) == CHANNEL_SIZE,
            message_offers(channels.input_ch.0) == Seq::<(ClientMsg, Offer)>::empty(),
            messages_waiting(channels.input_ch.0) == 0,
            message_bound(channels.input_ch.0) == CHANNEL_SIZE,
            event_answers(channels.output_ch.1) == Seq::<Polled>::empty(),
            events_given(channels.output_ch.1) == Seq::<VncEvent>::empty(),
            events_sent(channels.output_ch.1) == Seq::<VncEvent>::empty(),
            event_bound(channels.output_ch.1) == CHANNEL_SIZE,
            wakers_kept(channels.output_ch.1) == Seq::<std::task::Waker>::empty(),
            channels.ends_belong_together(),
    {
        Channels {
            conn_ch: piece_channel(CHANNEL_SIZE),
            input_ch: message_channel(CHANNEL_SIZE),
            output_ch: event_channel(CHANNEL_SIZE),
        }
    }
}

/// Both ends of each channel of a connection come from the making of one
/// channel with room for `CHANNEL_SIZE` items.
pub(crate) proof fn each_channel_is_made_whole(channels: Channels)
    requires
        call_ensures(Channels::new, (), channels),
    ensures
        call_ensures(piece_channel, (CHANNEL_SIZE,), channels.conn_ch),
        call_ensures(message_channel, (CHANNEL_SIZE,), channels.input_ch),
        call_ensures(event_channel, (CHANNEL_SIZE,), channels.output_ch),
{
}

/// The ends of the channels to the tasks of a connection. All copies of a
/// client share them.
pub struct Handles {
    /// Takes the user's messages.
    pub input_ch: Arc<Mutex<mpsc::Sender<ClientMsg>>>,
    /// Gives the events for the user.
    pub output_ch: Arc<Mutex<mpsc::Receiver<VncEvent>>>,
    /// Stops the decoding loop; empty once that was done.
    pub decoding_stop: Arc<Mutex<Option<oneshot::Sender<()>>>>,
    /// Stops the traffic loop; empty once that was done.
    pub net_conn_stop: Arc<Mutex<Option<oneshot::Sender<()>>>>,
}

/// A client of a running connection.
pub struct VncInner {
    name: String,
    screen: Screen,
    handles: Handles,
    closed: bool,
    stops: StopLog,
}

/// What a client knows of itself.
pub struct Client {
    /// The name of the screen.
    pub name: Seq<char>,
    pub screen: Screen,
    pub closed: bool,
}

impl Client {
    /// The message that an event of the user is sent as.
    pub open spec fn message(self, event: X11Event) -> ClientMsg {
        match event {
            X11Event::Refresh => ClientMsg::FramebufferUpdateRequest(self.screen.whole(), 1),
            X11Event::KeyEvent(key) => ClientMsg::KeyEvent(key.keycode, key.down),
            X11Event::PointerEvent(mouse) => ClientMsg::PointerEvent(
                mouse.position_x,
                mouse.position_y,
                mouse.bottons,
            ),
            X11Event::CopyText(text) => ClientMsg::ClientCutText(text),
        }
    }

    /// What an event of the user leads to.
    pub open spec fn input(self, event: X11Event) -> Result<ClientMsg, VncError> {
        if self.closed {
            Err(VncError::ClientNotRunning)
        } else {
            Ok(self.message(event))
        }
    }

    /// What becomes of a message by what became of the offer of it to the
    /// channel: it is in the channel, or, if that is full, it is handed back.
    pub open spec fn offer_input(self, message: ClientMsg, outcome: Offer) -> Result<
        Option<ClientMsg>,
        VncError,
    > {
        if self.closed {
            Err(VncError::ClientNotRunning)
        } else {
            match outcome {
                Offer::Taken => Ok(None),
                Offer::Full => Ok(Some(message)),
                Offer::Closed => Err(VncError::ChannelClosed),
            }
        }
    }

    /// What the user gets of what has come over the channel of events; nothing
    /// comes once the tasks at its other end have ended.
    pub open spec fn recv_event(self, received: Option<VncEvent>) -> Result<VncEvent, VncError> {
        if self.closed {
            Err(VncError::ClientNotRunning)
        } else {
            match received {
                Some(event) => Ok(event),
                None => Err(VncError::ClientNotRunning),
            }
        }
    }

    /// What the user gets of what was found in the channel of events.
    pub open spec fn poll_event(self, polled: Polled) -> Result<Option<VncEvent>, VncError> {
        if self.closed {
            Err(VncError::ClientNotRunning)
        } else {
            match polled {
                Polled::Event(event) => Ok(Some(event)),
                Polled::Empty => Ok(None),
                Polled::Disconnected => Err(VncError::ClientNotRunning),
            }
        }
    }

    /// What the user gets who waits, of what was found in the channel of events:
    /// nothing yet, and another look later, if nothing was found. Who waits may
    /// find nothing although an event is there, and then finds it later.
    pub open spec fn await_event(self, polled: Polled) -> Option<Result<VncEvent, VncError>> {
        if self.closed {
            Some(Err(VncError::ClientNotRunning))
        } else {
            match polled {
                Polled::Event(event) => Some(self.recv_event(Some(event))),
                Polled::Empty => None,
                Polled::Disconnected => Some(self.recv_event(None)),
            }
        }
    }

    /// The client after it was closed.
    pub open spec fn close(self) -> Client {
        Client { name: self.name, screen: self.screen, closed: true }
    }
}

impl View for VncInner {
    type V = Client;

    closed spec fn view(&self) -> Client {
        Client { name: self.name@, screen: self.screen, closed: self.closed }
    }
}

impl VncInner {
    /// The ends of the channels that the client holds.
    pub closed spec fn ends(self) -> Handles {
        self.handles
    }

    /// The ends over which the client, and those that it was copied from, have
    /// told tasks to stop, the earliest first.
    pub closed spec fn stops_sent(self) -> Seq<oneshot::Sender<()>> {
        self.stops.sent()
    }

    /// Makes the client of a connection whose handshake has settled `session`
    /// and whose tasks hold the other ends of the given channels. A name that is
    /// valid UTF-8 is the text that it says.
    pub fn new(session: Session, handles: Handles) -> (client: VncInner)
        ensures
            client@ == (Client {
                name: session.name_text(),
                screen: session.screen,
                closed: false,
            }),
            vstd::utf8::valid_utf8(session.name@) ==> client@.name == vstd::utf8::decode_utf8(
                session.name@,
            ),
            client.ends() == handles,
            client.stops_sent() == Seq::<oneshot::Sender<()>>::empty(),
    {
        VncInner::named(session.read_name(), session.screen, handles)
    }

    /// Makes a client with the given name.
    pub fn named(name: String, screen: Screen, handles: Handles) -> (client: VncInner)
        ensures
            client@ == (Client { name: name@, screen, closed: false }),
            client.ends() == handles,
            client.stops_sent() == Seq::<oneshot::Sender<()>>::empty(),
    {
        VncInner {
            name,
            screen,
            handles,
            closed: false,
            stops: StopLog::new(),
        }
    }

    /// The ends of the channels, to be locked by whoever sends or receives.
    pub fn handles(&self) -> (handles: &Handles)
        ensures
            *handles == self.ends(),
    {
        &self.handles
    }

    /// The name of the screen.
    pub fn name(&self) -> (name: &str)
        ensures
            name@ == self@.name,
    {
        self.name.as_str()
    }

    /// Fails if the client was closed. Then nothing is sent or received.
    pub fn running(&self) -> (running: Result<(), VncError>)
        ensures
            running == if self@.closed {
                Err::<(), VncError>(VncError::ClientNotRunning)
            } else {
                Ok(())
            },
    {
        if self.closed {
            Err(VncError::ClientNotRunning)
        } else {
            Ok(())
        }
    }

    /// Turns an event of the user into the message that is to be sent.
    pub fn input(&self, event: X11Event) -> (message: Result<ClientMsg, VncError>)
        ensures
            message == self@.input(event),
    {
        if self.closed {
            Err(VncError::ClientNotRunning)
        } else {
            let message = match event {
                X11Event::Refresh => ClientMsg::FramebufferUpdateRequest(
                    self.screen.full_rect(),
                    1,
                ),
                X11Event::KeyEvent(key) => ClientMsg::KeyEvent(key.keycode, key.down),
                X11Event::PointerEvent(mouse) => ClientMsg::PointerEvent(
                    mouse.position_x,
                    mouse.position_y,
                    mouse.bottons,
                ),
                X11Event::CopyText(text) => ClientMsg::ClientCutText(text),
            };
            Ok(message)
        }
    }

    /// Goes on after a message was offered to the channel of messages: done if it
    /// was taken, and with the message that is handed back if the channel is
    /// full, to be offered again when it has room.
    pub fn offered_input(&self, offered: Offered<ClientMsg>) -> (left: Result<
        Option<ClientMsg>,
        VncError,
    >)
        ensures
            left == if self@.closed {
                Err::<Option<ClientMsg>, VncError>(VncError::ClientNotRunning)
            } else {
                match offered {
                    Offered::Taken => Ok(None),
                    Offered::Full(message) => Ok(Some(message)),
                    Offered::Closed(_) => Err(VncError::ChannelClosed),
                }
            },
    {
        if self.closed {
            Err(VncError::ClientNotRunning)
        } else {
            match offered {
                Offered::Taken => Ok(None),
                Offered::Full(message) => Ok(Some(message)),
                Offered::Closed(_) => Err(VncError::ChannelClosed),
            }
        }
    }

    /// Offers a message to the channel of messages, once. What becomes of it
    /// depends on the traffic loop; `offered_input` says what follows. The
    /// channel never holds more messages than it was made for, and what it does
    /// not take is handed back. A closed client does not touch the channel.
    pub fn offer_input(&self, input_ch: &mut mpsc::Sender<ClientMsg>, message: ClientMsg) -> (left:
        Result<Option<ClientMsg>, VncError>)
        ensures
            !self@.closed ==> ({
                let (_, outcome) = message_offers(*final(input_ch)).last();
                &&& is_next_offer(*old(input_ch), *final(input_ch), message, outcome)
                &&& left == self@.offer_input(message, outcome)
            }),
            self@.closed ==> left == Err::<Option<ClientMsg>, VncError>(VncError::ClientNotRunning)
                && *final(input_ch) == *old(input_ch),
    {
        if self.closed {
            Err(VncError::ClientNotRunning)
        } else {
            let offered = offer_message(input_ch, message);
            self.offered_input(offered)
        }
    }

    /// Takes what has come over the channel of events, after waiting for it.
    pub fn recv_event(&self, received: Option<VncEvent>) -> (event: Result<VncEvent, VncError>)
        ensures
            event == self@.recv_event(received),
    {
        if self.closed {
            Err(VncError::ClientNotRunning)
        } else {
            match received {
                Some(event) => Ok(event),
                None => Err(VncError::ClientNotRunning),
            }
        }
    }

    /// Takes what was found in the channel of events, without waiting.
    pub fn polled_event(&self, polled: Polled) -> (event: Result<Option<VncEvent>, VncError>)
        ensures
            event == self@.poll_event(polled),
    {
        if self.closed {
            Err(VncError::ClientNotRunning)
        } else {
            match polled {
                Polled::Disconnected => Err(VncError::ClientNotRunning),
                Polled::Empty => Ok(None),
                Polled::Event(event) => Ok(Some(event)),
            }
        }
    }

    /// Looks for an event without waiting, once, and takes what is found, which
    /// depends on the tasks that send the events; `polled_event` says what
    /// follows from it. A closed client does not look. The events that leave the
    /// channel are those that are returned, and none is returned only if none is
    /// there.
    pub fn poll_event(&self, output_ch: &mut mpsc::Receiver<VncEvent>) -> (event: Result<
        Option<VncEvent>,
        VncError,
    >)
        ensures
            !self@.closed ==> ({
                let polled = event_answers(*final(output_ch)).last();
                &&& is_next_answer(*old(output_ch), *final(output_ch), polled)
                &&& event == self@.poll_event(polled)
            }),
            self@.closed ==> event == Err::<Option<VncEvent>, VncError>(VncError::ClientNotRunning)
                && *final(output_ch) == *old(output_ch),
            events_given(*final(output_ch)) == match event {
                Ok(Some(found)) => events_given(*old(output_ch)).push(found),
                _ => events_given(*old(output_ch)),
            },
            event == Ok::<Option<VncEvent>, VncError>(None) ==> events_given(*final(output_ch))
                == events_sent(*final(output_ch)),
            wakers_kept(*final(output_ch)) == wakers_kept(*old(output_ch)),
    {
        if self.closed {
            Err(VncError::ClientNotRunning)
        } else {
            let polled = poll_channel(output_ch);
            self.polled_event(polled)
        }
    }

    /// Looks for an event on behalf of a user who waits for one, once, and takes
    /// what is found, which depends on the tasks that send the events;
    /// `recv_event` says what follows from it. If there is none yet, nothing is
    /// returned, and the channel is left with `waker`, to wake the user by it
    /// when it is time to look again. If there is one, it is not. A closed
    /// client does not look. The events that leave the channel are those that
    /// are returned.
    pub fn poll_recv_event(
        &self,
        output_ch: &mut mpsc::Receiver<VncEvent>,
        waker: &std::task::Waker,
    ) -> (event: Option<Result<VncEvent, VncError>>)
        ensures
            !self@.closed ==> ({
                let polled = event_answers(*final(output_ch)).last();
                &&& is_next_answer(*old(output_ch), *final(output_ch), polled)
                &&& event == self@.await_event(polled)
            }),
            self@.closed ==> event == Some(
                Err::<VncEvent, VncError>(VncError::ClientNotRunning),
            ) && *final(output_ch) == *old(output_ch),
            events_given(*final(output_ch)) == match event {
                Some(Ok(found)) => events_given(*old(output_ch)).push(found),
                _ => events_given(*old(output_ch)),
            },
            wakers_kept(*final(output_ch)) == match event {
                None => wakers_kept(*old(output_ch)).push(*waker),
                Some(_) => wakers_kept(*old(output_ch)),
            },
    {
        if self.closed {
            Some(Err(VncError::ClientNotRunning))
        } else {
            match wait_channel(output_ch, waker) {
                Polled::Event(event) => Some(self.recv_event(Some(event))),
                Polled::Empty => None,
                Polled::Disconnected => Some(self.recv_event(None)),
            }
        }
    }

    /// Tells a task to stop, unless that was done before.
    fn stop(slot: &mut Option<oneshot::Sender<()>>, log: &mut StopLog)
        ensures
            final(log).sent() == old(log).sent() + in_slot(*old(slot)),
            *final(slot) is None,
    {
        match slot.take() {
            Some(stop) => send_stop(stop, log),
            None => {},
        }
        assert(log.sent() =~= old(log).sent() + in_slot(*old(slot)));
    }

    /// Tells the tasks of the connection to stop, the traffic loop first, and
    /// closes the client. The slots are what is behind the locks
    /// `net_conn_stop` and `decoding_stop` of the handles. A slot that is empty
    /// was emptied by a copy of the client that was closed before; over each of
    /// the others one signal is sent, whether or not the task is still there.
    pub fn close(
        &mut self,
        net_conn_stop: &mut Option<oneshot::Sender<()>>,
        decoding_stop: &mut Option<oneshot::Sender<()>>,
    ) -> (done: Result<(), VncError>)
        ensures
            done == Ok::<(), VncError>(()),
            final(self)@ == old(self)@.close(),
            final(self).ends() == old(self).ends(),
            *final(net_conn_stop) is None,
            *final(decoding_stop) is None,
            final(self).stops_sent() == old(self).stops_sent() + in_slot(*old(net_conn_stop))
                + in_slot(*old(decoding_stop)),
    {
        VncInner::stop(net_conn_stop, &mut self.stops);
        VncInner::stop(decoding_stop, &mut self.stops);
        self.closed = true;
        Ok(())
    }
}

/// The end that is in a slot, if one is.
pub open spec fn in_slot(slot: Option<oneshot::Sender<()>>) -> Seq<oneshot::Sender<()>> {
    match slot {
        Some(stop) => seq![stop],
        None => seq![],
    }
}

/// Whether `polled` is the one answer that the receiving end of the channel of
/// events has given between two moments. An event that it gives is the next of
/// those that were put into the channel, and it gives up only when it has given
/// them all. No more events wait in the channel than it holds.
pub open spec fn is_next_answer(
    before: mpsc::Receiver<VncEvent>,
    after: mpsc::Receiver<VncEvent>,
    polled: Polled,
) -> bool {
    &&& event_answers(after) == event_answers(before).push(polled)
    &&& events_given(after) == match polled {
        Polled::Event(event) => events_given(before).push(event),
        _ => events_given(before),
    }
    &&& events_sent(before).is_prefix_of(events_sent(after))
    &&& events_given(after).is_prefix_of(events_sent(after))
    &&& polled is Disconnected ==> events_given(after) == events_sent(after)
    &&& event_bound(after) == event_bound(before)
    &&& events_sent(after).len() <= events_given(after).len() + event_bound(after)
}

/// How many of the messages that the channel took are still in it.
pub open spec fn messages_waiting(input_ch: mpsc::Sender<ClientMsg>) -> int {
    taken(message_offers(input_ch)).len() - messages_passed(input_ch)
}

/// Whether the sending end of the channel of messages was offered `message`, and
/// nothing else, between two moments, with this outcome. The channel keeps its
/// bound.
pub open spec fn is_next_offer(
    before: mpsc::Sender<ClientMsg>,
    after: mpsc::Sender<ClientMsg>,
    message: ClientMsg,
    outcome: Offer,
) -> bool {
    &&& message_offers(after) == message_offers(before).push((message, outcome))
    &&& messages_passed(before) <= messages_passed(after)
    &&& message_bound(after) == message_bound(before)
    &&& 0 <= messages_waiting(after) <= message_bound(after)
}

impl Clone for Handles {
    fn clone(&self) -> (copy: Self)
        ensures
            copy == *self,
    {
        Handles {
            input_ch: share(&self.input_ch),
            output_ch: share(&self.output_ch),
            decoding_stop: share(&self.decoding_stop),
            net_conn_stop: share(&self.net_conn_stop),
        }
    }
}

/// A copy of a client shares its channels, and is closed on its own.
impl Clone for VncInner {
    fn clone(&self) -> (copy: Self)
        ensures
            copy@ == self@,
            copy.ends() == self.ends(),
            copy.stops_sent() == self.stops_sent(),
    {
        VncInner {
            name: self.name.clone(),
            screen: self.screen,
            handles: self.handles.clone(),
            closed: self.closed,
            stops: self.stops,
        }
    }
}

/// A closed client sends nothing and receives nothing: whatever it is asked,
/// the answer is that it is not running.
pub proof fn closed_client_refuses(
    client: Client,
    event: X11Event,
    received: Option<VncEvent>,
    polled: Polled,
)
    ensures
        client.close().input(event) == Err::<ClientMsg, VncError>(VncError::ClientNotRunning),
        client.close().recv_event(received) == Err::<VncEvent, VncError>(
            VncError::ClientNotRunning,
        ),
        client.close().await_event(polled) == Some(
            Err::<VncEvent, VncError>(VncError::ClientNotRunning),
        ),
        client.close().poll_event(polled) == Err::<Option<VncEvent>, VncError>(
            VncError::ClientNotRunning,
        ),
{
}

/// To close a client again changes nothing.
pub proof fn closing_twice_is_closing(client: Client)
    ensures
        client.close().close() == client.close(),
{
}

/// An open client refuses no event of its user, and no two events are sent as
/// the same message.
pub proof fn events_are_sent_apart(client: Client, a: X11Event, b: X11Event)
    requires
        !client.closed,
    ensures
        client.input(a) is Ok,
        client.input(a) == client.input(b) ==> a == b,
{
}

/// To refresh is to ask for the same picture of the whole screen as the
/// handshake does, but only for what has changed in it.
pub proof fn refresh_repeats_first_request(client: Client)
    requires
        !client.closed,
    ensures
        Handshake::first_request(client.screen) == ClientMsg::FramebufferUpdateRequest(
            client.screen.whole(),
            0,
        ),
        client.input(X11Event::Refresh) == Ok::<ClientMsg, VncError>(
            ClientMsg::FramebufferUpdateRequest(client.screen.whole(), 1),
        ),
{
}

/// Waiting for an event and looking for one give the user the same: the event
/// that is there, and the same error once the tasks of the connection have
/// ended.
pub proof fn waiting_and_looking_agree(client: Client, event: VncEvent)
    ensures
        client.poll_event(Polled::Event(event)) == match client.recv_event(Some(event)) {
            Ok(received) => Ok(Some(received)),
            Err(error) => Err(error),
        },
        client.poll_event(Polled::Disconnected) == match client.recv_event(None) {
            Ok(received) => Ok(Some(received)),
            Err(error) => Err(error),
        },
{
}

/// A call in which a user asks a client for an event.
pub struct Call {
    /// The client that was asked: the first one, or one of its copies.
    pub client: Client,
    /// Whether the user waits for an event, or only looks for one.
    pub waits: bool,
    /// What was found in the channel.
    pub polled: Polled,
}

impl Call {
    /// The event that the user was given, if any.
    pub open spec fn returned(self) -> Seq<VncEvent> {
        if self.waits {
            match self.client.await_event(self.polled) {
                Some(Ok(event)) => seq![event],
                _ => seq![],
            }
        } else {
            match self.client.poll_event(self.polled) {
                Ok(Some(event)) => seq![event],
                _ => seq![],
            }
        }
    }
}

/// The events that the users were given in these calls, in order.
pub open spec fn all_returned(calls: Seq<Call>) -> Seq<VncEvent>
    decreases calls.len(),
{
    if calls.len() == 0 {
        Seq::empty()
    } else {
        all_returned(calls.drop_last()) + calls.last().returned()
    }
}

/// Whether `ends` is what becomes of the receiving end of the channel of events
/// while clients, none of them closed, make these calls one after the other.
pub open spec fn are_made(calls: Seq<Call>, ends: Seq<mpsc::Receiver<VncEvent>>) -> bool {
    &&& ends.len() == calls.len() + 1
    &&& forall|i: int|
        0 <= i < calls.len() ==> !(#[trigger] calls[i]).client.closed && is_next_answer(
            ends[i],
            ends[i + 1],
            calls[i].polled,
        )
}

/// Each event goes to exactly one caller. Over any calls on a client and its
/// copies, waiting and looking mixed, the callers together are given the events
/// that the tasks have put into the channel, from the first that had not been
/// given before, in order: none is lost, doubled or moved. If a caller is told
/// that the tasks have ended, all events have been given. No more events wait
/// than the channel was made for.
pub proof fn each_event_reaches_one_caller(
    calls: Seq<Call>,
    ends: Seq<mpsc::Receiver<VncEvent>>,
)
    requires
        are_made(calls, ends),
        calls.len() > 0,
    ensures
        events_given(ends.last()) == events_given(ends[0]) + all_returned(calls),
        events_given(ends.last()).is_prefix_of(events_sent(ends.last())),
        events_sent(ends[0]).is_prefix_of(events_sent(ends.last())),
        calls.last().polled is Disconnected ==> events_given(ends[0]) + all_returned(calls)
            == events_sent(ends.last()),
        event_bound(ends.last()) == event_bound(ends[0]),
        events_sent(ends.last()).len() - events_given(ends.last()).len() <= event_bound(ends[0]),
    decreases calls.len(),
{
    let last = calls.len() - 1;
    let (before, earlier) = (calls.drop_last(), ends.drop_last());
    assert(calls[last] == calls.last());
    assert(ends[last + 1] == ends.last());
    assert(ends[last] == earlier.last());
    if before.len() > 0 {
        assert forall|i: int| 0 <= i < before.len() implies !(
        #[trigger] before[i]).client.closed && is_next_answer(
            earlier[i],
            earlier[i + 1],
            before[i].polled,
        ) by {
            assert(before[i] == calls[i]);
        }
        each_event_reaches_one_caller(before, earlier);
    }
    assert(events_given(ends.last()) =~= events_given(ends[last]) + calls.last().returned());
    assert(events_given(ends.last()) =~= events_given(ends[0]) + all_returned(calls));
}

/// The callers that are the first to be given events are given the first events
/// that the tasks have produced.
pub proof fn callers_get_the_first_events(
    calls: Seq<Call>,
    ends: Seq<mpsc::Receiver<VncEvent>>,
)
    requires
        are_made(calls, ends),
        calls.len() > 0,
        events_given(ends[0]) == Seq::<VncEvent>::empty(),
    ensures
        all_returned(calls).is_prefix_of(events_sent(ends.last())),
{
    each_event_reaches_one_caller(calls, ends);
    assert(events_given(ends[0]) + all_returned(calls) =~= all_returned(calls));
}

/// A call in which a user hands an event of theirs to a client, and what becomes
/// of the message that it is sent as.
pub struct Input {
    /// The client that was asked: the first one, or one of its copies.
    pub client: Client,
    pub event: X11Event,
    pub outcome: Offer,
}

impl Input {
    pub open spec fn message(self) -> ClientMsg {
        self.client.message(self.event)
    }

    /// Whether the user was told that the message is on its way.
    pub open spec fn is_accepted(self) -> bool {
        self.client.offer_input(self.message(), self.outcome) == Ok::<Option<ClientMsg>, VncError>(
            None,
        )
    }
}

/// The messages of the accepted inputs, in order.
pub open spec fn accepted(inputs: Seq<Input>) -> Seq<ClientMsg>
    decreases inputs.len(),
{
    if inputs.len() == 0 {
        Seq::empty()
    } else if inputs.last().is_accepted() {
        accepted(inputs.drop_last()).push(inputs.last().message())
    } else {
        accepted(inputs.drop_last())
    }
}

/// Whether `ends` is what becomes of the sending end of the channel of messages
/// while clients, none of them closed, offer the messages of these inputs one
/// after the other.
pub open spec fn are_offered(inputs: Seq<Input>, ends: Seq<mpsc::Sender<ClientMsg>>) -> bool {
    &&& ends.len() == inputs.len() + 1
    &&& forall|i: int|
        0 <= i < inputs.len() ==> !(#[trigger] inputs[i]).client.closed && is_next_offer(
            ends[i],
            ends[i + 1],
            inputs[i].message(),
            inputs[i].outcome,
        )
}

/// The messages of a client and its copies stand in one queue. It takes the
/// accepted ones, each once and in the order of the calls, and nothing else;
/// one that it is too full for is not in it. Never are there more messages in
/// it than it was made for.
pub proof fn inputs_stand_in_one_queue(inputs: Seq<Input>, ends: Seq<mpsc::Sender<ClientMsg>>)
    requires
        are_offered(inputs, ends),
    ensures
        taken(message_offers(ends.last())) == taken(message_offers(ends[0])) + accepted(inputs),
        message_bound(ends.last()) == message_bound(ends[0]),
        inputs.len() > 0 ==> messages_waiting(ends.last()) <= message_bound(ends[0]),
    decreases inputs.len(),
{
    if inputs.len() > 0 {
        let last = inputs.len() - 1;
        let (before, earlier) = (inputs.drop_last(), ends.drop_last());
        assert(inputs[last] == inputs.last());
        assert(ends[last + 1] == ends.last());
        assert(ends[last] == earlier.last());
        assert forall|i: int| 0 <= i < before.len() implies !(
        #[trigger] before[i]).client.closed && is_next_offer(
            earlier[i],
            earlier[i + 1],
            before[i].message(),
            before[i].outcome,
        ) by {
            assert(before[i] == inputs[i]);
        }
        inputs_stand_in_one_queue(before, earlier);
        let offers = message_offers(ends.last());
        assert(offers.drop_last() =~= message_offers(ends[last]));
        assert(taken(offers) =~= taken(message_offers(ends[0])) + accepted(inputs));
    } else {
        assert(taken(message_offers(ends[0])) + accepted(inputs) =~= taken(
            message_offers(ends[0]),
        ));
    }
}

proof fn accepted_in_two_parts(inputs: Seq<Input>, count: int)
    requires
        0 <= count <= inputs.len(),
    ensures
        accepted(inputs.take(count)).is_prefix_of(accepted(inputs)),
    decreases inputs.len(),
{
    if count < inputs.len() {
        accepted_in_two_parts(inputs.drop_last(), count);
        assert(inputs.drop_last().take(count) =~= inputs.take(count));
    } else {
        assert(inputs.take(count) =~= inputs);
    }
}

/// Of two inputs that were accepted, the message of the earlier one stands
/// before that of the later one: each stands behind the messages that were
/// accepted before it.
pub proof fn earlier_input_stands_first(
    inputs: Seq<Input>,
    ends: Seq<mpsc::Sender<ClientMsg>>,
    earlier: int,
    later: int,
)
    requires
        are_offered(inputs, ends),
        0 <= earlier < later < inputs.len(),
        inputs[earlier].is_accepted(),
        inputs[later].is_accepted(),
    ensures
        ({
            let queue = taken(message_offers(ends.last()));
            let start = taken(message_offers(ends[0])).len();
            let first = start + accepted(inputs.take(earlier)).len();
            let second = start + accepted(inputs.take(later)).len();
            &&& first < second < queue.len()
            &&& queue[first as int] == inputs[earlier].message()
            &&& queue[second as int] == inputs[later].message()
        }),
{
    inputs_stand_in_one_queue(inputs, ends);
    let upto_first = inputs.take(earlier + 1);
    let upto_second = inputs.take(later + 1);
    assert(upto_first.drop_last() =~= inputs.take(earlier));
    assert(upto_second.drop_last() =~= inputs.take(later));
    assert(upto_first.last() == inputs[earlier]);
    assert(upto_second.last() == inputs[later]);
    accepted_in_two_parts(inputs.take(later), earlier + 1);
    assert(inputs.take(later).take(earlier + 1) =~= upto_first);
    accepted_in_two_parts(inputs, later + 1);
    accepted_in_two_parts(inputs, earlier + 1);
    let all = accepted(inputs);
    let first = accepted(inputs.take(earlier)).len() as int;
    let second = accepted(inputs.take(later)).len() as int;
    assert(accepted(upto_first)[first] == all[first]);
    assert(accepted(upto_second)[second] == all[second]);
}

/// The queues of a connection keep their bound. From the making of the channels
/// on, whatever the pump offers and whatever inputs and calls are made on the
/// client and its copies, no more than `CHANNEL_SIZE` pieces, messages and
/// events wait in them.
pub proof fn queues_keep_their_bound(
    channels: Seq<mpsc::Sender<std::io::Result<Vec<u8>>>>,
    inputs: Seq<Input>,
    senders: Seq<mpsc::Sender<ClientMsg>>,
    calls: Seq<Call>,
    receivers: Seq<mpsc::Receiver<VncEvent>>,
)
    requires
        are_offers(channels),
        channels.len() > 1,
        piece_bound(channels[0]) == CHANNEL_SIZE,
        are_offered(inputs, senders),
        inputs.len() > 0,
        message_bound(senders[0]) == CHANNEL_SIZE,
        are_made(calls, receivers),
        calls.len() > 0,
        event_bound(receivers[0]) == CHANNEL_SIZE,
    ensures
        pieces_waiting(channels.last()) <= CHANNEL_SIZE,
        messages_waiting(senders.last()) <= CHANNEL_SIZE,
        events_sent(receivers.last()).len() - events_given(receivers.last()).len() <= CHANNEL_SIZE,
{
    pieces_wait_within_bound(channels);
    inputs_stand_in_one_queue(inputs, senders);
    each_event_reaches_one_caller(calls, receivers);
}

/// A closed connection comes to its end, even if the server sends nothing more
/// and the user has nothing more to say. Wherever its loops stand between two
/// messages, the decoding loop ends and the traffic loop ends after the pump; a
/// message that is being written is written first. The pump ends because nobody
/// takes its bytes any more, whether it waits for some or holds some. No other
/// message is written, and no event is produced.
pub proof fn closed_connection_ends(
    traffic: Traffic,
    read_loop: ReadLoop,
    held: Vec<u8>,
    traffic_poll: StopPoll,
    decoding_poll: StopPoll,
)
    requires
        traffic is Polling || traffic is Receiving,
        read_loop.phase is Polling || read_loop.phase is Message,
        traffic_poll !is Empty,
        decoding_poll !is Empty,
    ensures
        run(read_loop, seq![ReadInput::Stop(decoding_poll)]) == Some(
            (read_loop.at(ReadPhase::Ended), seq![ReadAction::Finish(Ok(()))]),
        ),
        run(Pump::Reading, seq![PumpInput::LoopEnded]) == Some(
            (Pump::Ended, seq![PumpAction::Finish]),
        ),
        run(Pump::Holding(held), seq![PumpInput::Offered(Offer::Closed)]) == Some(
            (Pump::Ended, seq![PumpAction::Finish]),
        ),
        run(traffic, seq![TrafficInput::Stop(traffic_poll), TrafficInput::Done]) == Some(
            (Traffic::Ended, seq![TrafficAction::JoinPump, TrafficAction::Finish(Ok(()))]),
        ),
        run(
            Traffic::Writing,
            seq![TrafficInput::Done, TrafficInput::Stop(traffic_poll), TrafficInput::Done],
        ) == Some(
            (
                Traffic::Ended,
                seq![
                    TrafficAction::PollStop,
                    TrafficAction::JoinPump,
                    TrafficAction::Finish(Ok(())),
                ],
            ),
        ),
{
    let stop = seq![ReadInput::Stop(decoding_poll)];
    let alone = seq![PumpInput::LoopEnded];
    let refused = seq![PumpInput::Offered(Offer::Closed)];
    let told = seq![TrafficInput::Stop(traffic_poll), TrafficInput::Done];
    let written = seq![TrafficInput::Done, TrafficInput::Stop(traffic_poll), TrafficInput::Done];
    reveal_with_fuel(run, 4);
    assert(stop.drop_first() =~= seq![]);
    assert(alone.drop_first() =~= seq![]);
    assert(refused.drop_first() =~= seq![]);
    assert(told.drop_first() =~= seq![TrafficInput::Done]);
    assert(told.drop_first().drop_first() =~= seq![]);
    assert(written.drop_first() =~= told);
    let (_, last) = run(read_loop, stop)->0;
    assert(last =~= seq![ReadAction::Finish(Ok(()))]);
    let (_, left) = run(Pump::Reading, alone)->0;
    assert(left =~= seq![PumpAction::Finish]);
    let (_, closed) = run(Pump::Holding(held), refused)->0;
    assert(closed =~= seq![PumpAction::Finish]);
    let (_, joined) = run(traffic, told)->0;
    assert(joined =~= seq![TrafficAction::JoinPump, TrafficAction::Finish(Ok(()))]);
    let (_, whole) = run(Traffic::Writing, written)->0;
    assert(whole =~= seq![
        TrafficAction::PollStop,
        TrafficAction::JoinPump,
        TrafficAction::Finish(Ok(())),
    ]);
}

/// What the user does is sent as it was done: a key by its code and whether it
/// is down, the pointer by its place and the buttons that are held, a text as
/// the same text, and a refresh as a request for what has changed in the
/// rectangle from the upper left corner that has the size of the screen.
pub proof fn input_is_sent_as_it_was_made(
    client: Client,
    keycode: u32,
    down: bool,
    position_x: u16,
    position_y: u16,
    bottons: u8,
    text: String,
)
    requires
        !client.closed,
    ensures
        client.input(X11Event::KeyEvent(ClientKeyEvent { keycode, down })) == Ok::<
            ClientMsg,
            VncError,
        >(ClientMsg::KeyEvent(keycode, down)),
        client.input(
            X11Event::PointerEvent(ClientMouseEvent { position_x, position_y, bottons }),
        ) == Ok::<ClientMsg, VncError>(ClientMsg::PointerEvent(position_x, position_y, bottons)),
        client.input(X11Event::CopyText(text)) == Ok::<ClientMsg, VncError>(
            ClientMsg::ClientCutText(text),
        ),
        client.input(X11Event::Refresh) matches Ok(ClientMsg::FramebufferUpdateRequest(rect, 1))
            && rect.x == 0 && rect.y == 0 && rect.width == client.screen.width && rect.height
            == client.screen.height,
{
}

/// An open client hands on every event as it came, whether the user waited or
/// looked; it says that there is none only if none was found, and fails only if
/// none will come.
pub proof fn open_client_hands_on_every_event(client: Client, event: VncEvent)
    requires
        !client.closed,
    ensures
        client.recv_event(Some(event)) == Ok::<VncEvent, VncError>(event),
        client.await_event(Polled::Event(event)) == Some(Ok::<VncEvent, VncError>(event)),
        client.poll_event(Polled::Event(event)) == Ok::<Option<VncEvent>, VncError>(Some(event)),
        client.await_event(Polled::Empty) is None,
        client.poll_event(Polled::Empty) == Ok::<Option<VncEvent>, VncError>(None),
        client.recv_event(None) == Err::<VncEvent, VncError>(VncError::ClientNotRunning),
        client.await_event(Polled::Disconnected) == Some(
            Err::<VncEvent, VncError>(VncError::ClientNotRunning),
        ),
        client.poll_event(Polled::Disconnected) == Err::<Option<VncEvent>, VncError>(
            VncError::ClientNotRunning,
        ),
{
}

/// A message that is offered is on its way, or handed back as it was, or refused
/// because nobody takes it any more. None of it depends on the message.
pub proof fn message_is_queued_handed_back_or_refused(client: Client, message: ClientMsg)
    requires
        !client.closed,
    ensures
        client.offer_input(message, Offer::Taken) == Ok::<Option<ClientMsg>, VncError>(None),
        client.offer_input(message, Offer::Full) == Ok::<Option<ClientMsg>, VncError>(
            Some(message),
        ),
        client.offer_input(message, Offer::Closed) == Err::<Option<ClientMsg>, VncError>(
            VncError::ChannelClosed,
        ),
{
}

/// To close a client keeps its name and its screen. The end in a slot is the one
/// over which the task is told.
pub proof fn closing_keeps_name_and_screen(client: Client, stop: oneshot::Sender<()>)
    ensures
        client.close().closed,
        client.close().name == client.name,
        client.close().screen == client.screen,
        in_slot(Some(stop)) == seq![stop],
        in_slot(None) == Seq::<oneshot::Sender<()>>::empty(),
{
}

/// From the handshake on: the client of a session has the session's screen, asks
/// for all of it, and is open; its name is made of all the bytes that the server
/// sent as the name.
pub proof fn client_is_that_of_its_session(session: Session, handles: Handles, client: VncInner)
    requires
        call_ensures(VncInner::new, (session, handles), client),
    ensures
        !client@.closed,
        client@.screen.width == session.screen.width,
        client@.screen.height == session.screen.height,
        client@.name == utf8_lossy(session.name@),
        client@.input(X11Event::Refresh) matches Ok(ClientMsg::FramebufferUpdateRequest(rect, 1))
            && rect.x == 0 && rect.y == 0 && rect.width == session.screen.width && rect.height
            == session.screen.height,
        client.ends() == handles,
{
}

/// What a client answers to an event of the user is what the event asks for,
/// number by number.
pub proof fn answer_to_input_holds_its_numbers(
    client: &VncInner,
    event: X11Event,
    message: Result<ClientMsg, VncError>,
)
    requires
        call_ensures(VncInner::input, (client, event), message),
    ensures
        client@.closed ==> message == Err::<ClientMsg, VncError>(VncError::ClientNotRunning),
        !client@.closed ==> match event {
            X11Event::KeyEvent(key) => message matches Ok(ClientMsg::KeyEvent(keycode, down))
                && keycode == key.keycode && down == key.down,
            X11Event::PointerEvent(mouse) => message matches Ok(
                ClientMsg::PointerEvent(x, y, bottons),
            ) && x == mouse.position_x && y == mouse.position_y && bottons == mouse.bottons,
            X11Event::CopyText(text) => message matches Ok(ClientMsg::ClientCutText(sent)) && sent
                == text,
            X11Event::Refresh => message matches Ok(
                ClientMsg::FramebufferUpdateRequest(rect, changes),
            ) && changes == 1 && rect.x == 0 && rect.y == 0 && rect.width == client@.screen.width
                && rect.height == client@.screen.height,
        },
{
}

/// A client is said to be running exactly if it refuses no event of its user,
/// and if it is, it gives the user what comes.
pub proof fn running_client_refuses_nothing(
    client: &VncInner,
    running: Result<(), VncError>,
    event: X11Event,
    message: Result<ClientMsg, VncError>,
    come: VncEvent,
    given: Result<VncEvent, VncError>,
)
    requires
        call_ensures(VncInner::running, (client,), running),
        call_ensures(VncInner::input, (client, event), message),
        call_ensures(VncInner::recv_event, (client, Some(come)), given),
    ensures
        running is Ok <==> message is Ok,
        running is Ok <==> given == Ok::<VncEvent, VncError>(come),
        running matches Err(error) ==> message == Err::<ClientMsg, VncError>(error) && given == Err::<
            VncEvent,
            VncError,
        >(error),
{
}

} // verus!
