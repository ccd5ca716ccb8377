use std::sync::atomic::{AtomicUsize, Ordering};
use std::sync::Arc;
use std::task::{Wake, Waker};
use tokio::sync::{mpsc, oneshot, Mutex};
use vnc::{
    Channels, ClientKeyEvent, ClientMouseEvent, ClientMsg, Handles, Offered, PixelFormat, Polled,
    Rect, Screen, Session, VncError, VncEvent, VncInner, X11Event, CHANNEL_SIZE,
};

struct Tasks {
    output_ch: mpsc::Sender<VncEvent>,
    decoding_stop: oneshot::Receiver<()>,
    net_conn_stop: oneshot::Receiver<()>,
    input_ch: mpsc::Receiver<ClientMsg>,
}

fn client() -> (VncInner, Tasks) {
    let (input_tx, input_rx) = mpsc::channel(4);
    let (output_tx, output_rx) = mpsc::channel(4);
    let (decoding_tx, decoding_rx) = oneshot::channel();
    let (net_tx, net_rx) = oneshot::channel();
    let handles = Handles {
        input_ch: Arc::new(Mutex::new(input_tx)),
        output_ch: Arc::new(Mutex::new(output_rx)),
        decoding_stop: Arc::new(Mutex::new(Some(decoding_tx))),
        net_conn_stop: Arc::new(Mutex::new(Some(net_tx))),
    };
    let screen = Screen { width: 800, height: 600 };
    let tasks = Tasks {
        output_ch: output_tx,
        decoding_stop: decoding_rx,
        net_conn_stop: net_rx,
        input_ch: input_rx,
    };
    (VncInner::named("desk".to_string(), screen, handles), tasks)
}

fn close(client: &mut VncInner) -> Result<(), VncError> {
    let handles = client.handles().clone();
    let mut net_conn_stop = handles.net_conn_stop.try_lock().unwrap();
    let mut decoding_stop = handles.decoding_stop.try_lock().unwrap();
    client.close(&mut net_conn_stop, &mut decoding_stop)
}

fn poll(client: &VncInner) -> Result<Option<VncEvent>, VncError> {
    let mut output_ch = client.handles().output_ch.try_lock().unwrap();
    client.poll_event(&mut output_ch)
}

fn pixels() -> PixelFormat {
    PixelFormat {
        bits_per_pixel: 32,
        depth: 24,
        big_endian_flag: 0,
        true_color_flag: 1,
        red_max: 255,
        green_max: 255,
        blue_max: 255,
        red_shift: 16,
        green_shift: 8,
        blue_shift: 0,
    }
}

struct Bell(AtomicUsize);

impl Wake for Bell {
    fn wake(self: Arc<Self>) {
        self.0.fetch_add(1, Ordering::SeqCst);
    }
}

fn wait(client: &VncInner, bell: &Arc<Bell>) -> Option<Result<VncEvent, VncError>> {
    let waker = Waker::from(bell.clone());
    let mut output_ch = client.handles().output_ch.try_lock().unwrap();
    client.poll_recv_event(&mut output_ch, &waker)
}

#[test]
fn new_client_runs() {
    let (client, _tasks) = client();
    assert_eq!(client.name(), "desk");
    assert_eq!(client.running(), Ok(()));
}

#[test]
fn client_of_a_session_has_its_name_and_screen() {
    let (other, _tasks) = client();
    let session = Session {
        name: vec![b'p', b'c', 0x80],
        screen: Screen { width: 640, height: 480 },
        pixel_format: pixels(),
    };
    let client = VncInner::new(session, other.handles().clone());
    assert_eq!(client.name(), "pc\u{fffd}");
    assert_eq!(client.running(), Ok(()));
    let whole = Rect { x: 0, y: 0, width: 640, height: 480 };
    assert_eq!(
        client.input(X11Event::Refresh),
        Ok(ClientMsg::FramebufferUpdateRequest(whole, 1))
    );
}

#[test]
fn events_of_the_user_become_messages() {
    let (client, _tasks) = client();
    let whole = Rect { x: 0, y: 0, width: 800, height: 600 };
    assert_eq!(
        client.input(X11Event::Refresh),
        Ok(ClientMsg::FramebufferUpdateRequest(whole, 1))
    );
    assert_eq!(
        client.input(X11Event::KeyEvent(ClientKeyEvent { keycode: 0xff0d, down: true })),
        Ok(ClientMsg::KeyEvent(0xff0d, true))
    );
    let mouse = ClientMouseEvent { position_x: 3, position_y: 4, bottons: 5 };
    assert_eq!(
        client.input(X11Event::PointerEvent(mouse)),
        Ok(ClientMsg::PointerEvent(3, 4, 5))
    );
    assert_eq!(
        client.input(X11Event::CopyText("text".to_string())),
        Ok(ClientMsg::ClientCutText("text".to_string()))
    );
}

#[test]
fn messages_go_through_the_shared_channel() {
    let (client, mut tasks) = client();
    let message = client.input(X11Event::CopyText("text".to_string())).unwrap();
    client.handles().input_ch.try_lock().unwrap().try_send(message).unwrap();
    assert_eq!(tasks.input_ch.try_recv(), Ok(ClientMsg::ClientCutText("text".to_string())));
}

#[test]
fn refused_message_is_a_closed_channel() {
    let refused = mpsc::error::SendError(ClientMsg::KeyEvent(1, true));
    assert_eq!(VncError::from(refused), VncError::ChannelClosed);
    assert_eq!(VncError::ChannelClosed.into_text(), "channel closed");
}

#[test]
fn received_event_is_handed_on() {
    let (client, _tasks) = client();
    assert_eq!(client.recv_event(Some(VncEvent::Bell)), Ok(VncEvent::Bell));
    assert_eq!(client.recv_event(None), Err(VncError::ClientNotRunning));
}

#[test]
fn polled_event_is_handed_on() {
    let (client, _tasks) = client();
    let polled = Polled::Event(VncEvent::Bell);
    assert_eq!(client.polled_event(polled), Ok(Some(VncEvent::Bell)));
    assert_eq!(client.polled_event(Polled::Empty), Ok(None));
    assert_eq!(client.polled_event(Polled::Disconnected), Err(VncError::ClientNotRunning));
}

#[test]
fn events_are_polled_in_order_until_the_tasks_end() {
    let (client, tasks) = client();
    assert_eq!(poll(&client), Ok(None));
    tasks.output_ch.try_send(VncEvent::Bell).unwrap();
    tasks.output_ch.try_send(VncEvent::Text("text".to_string())).unwrap();
    assert_eq!(poll(&client), Ok(Some(VncEvent::Bell)));
    drop(tasks);
    assert_eq!(poll(&client), Ok(Some(VncEvent::Text("text".to_string()))));
    assert_eq!(poll(&client), Err(VncError::ClientNotRunning));
}

#[test]
fn closing_stops_the_tasks() {
    let (mut client, mut tasks) = client();
    assert!(tasks.net_conn_stop.try_recv().is_err());
    assert_eq!(close(&mut client), Ok(()));
    assert_eq!(tasks.net_conn_stop.try_recv(), Ok(()));
    assert_eq!(tasks.decoding_stop.try_recv(), Ok(()));
    assert!(client.handles().net_conn_stop.try_lock().unwrap().is_none());
    assert!(client.handles().decoding_stop.try_lock().unwrap().is_none());
}

#[test]
fn closed_client_refuses_everything() {
    let (mut client, tasks) = client();
    tasks.output_ch.try_send(VncEvent::Bell).unwrap();
    close(&mut client).unwrap();
    assert_eq!(client.running(), Err(VncError::ClientNotRunning));
    assert_eq!(client.input(X11Event::Refresh), Err(VncError::ClientNotRunning));
    assert_eq!(client.recv_event(Some(VncEvent::Bell)), Err(VncError::ClientNotRunning));
    let polled = Polled::Event(VncEvent::Bell);
    assert_eq!(client.polled_event(polled), Err(VncError::ClientNotRunning));
    assert_eq!(poll(&client), Err(VncError::ClientNotRunning));
    let waiting = client.handles().output_ch.try_lock().unwrap().try_recv();
    assert_eq!(waiting, Ok(VncEvent::Bell));
}

#[test]
fn closing_twice_is_fine() {
    let (mut client, _tasks) = client();
    assert_eq!(close(&mut client), Ok(()));
    assert_eq!(close(&mut client), Ok(()));
    assert_eq!(client.name(), "desk");
    assert_eq!(client.running(), Err(VncError::ClientNotRunning));
}

#[test]
fn closing_is_fine_when_the_tasks_have_ended() {
    let (mut client, tasks) = client();
    drop(tasks);
    assert_eq!(close(&mut client), Ok(()));
    assert_eq!(client.running(), Err(VncError::ClientNotRunning));
}

#[test]
fn copies_share_channels_but_are_closed_alone() {
    let (client, mut tasks) = client();
    let mut copy = client.clone();
    assert_eq!(copy.name(), "desk");
    assert!(Arc::ptr_eq(&copy.handles().input_ch, &client.handles().input_ch));
    assert!(Arc::ptr_eq(&copy.handles().output_ch, &client.handles().output_ch));
    close(&mut copy).unwrap();
    assert_eq!(tasks.net_conn_stop.try_recv(), Ok(()));
    assert!(client.handles().net_conn_stop.try_lock().unwrap().is_none());
    assert_eq!(copy.running(), Err(VncError::ClientNotRunning));
    assert_eq!(client.running(), Ok(()));
    assert_eq!(copy.clone().running(), Err(VncError::ClientNotRunning));
}

#[test]
fn each_event_goes_to_one_of_the_copies() {
    let (first, tasks) = client();
    let second = first.clone();
    for text in ["a", "b", "c", "d"] {
        tasks.output_ch.try_send(VncEvent::Text(text.to_string())).unwrap();
    }
    let mut given = Vec::new();
    given.push(poll(&first).unwrap().unwrap());
    given.push(poll(&second).unwrap().unwrap());
    let bell = Arc::new(Bell(AtomicUsize::new(0)));
    given.push(wait(&second, &bell).unwrap().unwrap());
    given.push(poll(&first).unwrap().unwrap());
    let all: Vec<VncEvent> = ["a", "b", "c", "d"]
        .iter()
        .map(|text| VncEvent::Text(text.to_string()))
        .collect();
    assert_eq!(given, all);
    assert_eq!(poll(&second), Ok(None));
}

#[test]
fn closed_copy_takes_no_event() {
    let (first, tasks) = client();
    let mut second = first.clone();
    assert_eq!(close(&mut second), Ok(()));
    tasks.output_ch.try_send(VncEvent::Bell).unwrap();
    assert_eq!(poll(&second), Err(VncError::ClientNotRunning));
    assert_eq!(poll(&first), Ok(Some(VncEvent::Bell)));
}

#[test]
fn waiting_user_is_woken_for_an_event() {
    let (client, tasks) = client();
    let bell = Arc::new(Bell(AtomicUsize::new(0)));
    assert_eq!(wait(&client, &bell), None);
    assert_eq!(bell.0.load(Ordering::SeqCst), 0);
    tasks.output_ch.try_send(VncEvent::Text("now".to_string())).unwrap();
    assert_eq!(bell.0.load(Ordering::SeqCst), 1);
    assert_eq!(wait(&client, &bell), Some(Ok(VncEvent::Text("now".to_string()))));
    assert_eq!(wait(&client, &bell), None);
    drop(tasks);
    assert_eq!(wait(&client, &bell), Some(Err(VncError::ClientNotRunning)));
}

#[test]
fn closed_client_does_not_wait() {
    let (mut client, tasks) = client();
    let bell = Arc::new(Bell(AtomicUsize::new(0)));
    close(&mut client).unwrap();
    tasks.output_ch.try_send(VncEvent::Bell).unwrap();
    assert_eq!(wait(&client, &bell), Some(Err(VncError::ClientNotRunning)));
    let left = client.handles().output_ch.try_lock().unwrap().try_recv();
    assert_eq!(left, Ok(VncEvent::Bell));
}

#[test]
fn client_of_a_session_has_the_text_of_its_name() {
    let (other, _tasks) = client();
    let screen = Screen { width: 1, height: 1 };
    let name = "Schreibtisch \u{e4}".as_bytes().to_vec();
    let session = Session { screen, pixel_format: pixels(), name };
    let named = VncInner::new(session, other.handles().clone());
    assert_eq!(named.name(), "Schreibtisch \u{e4}");
}

fn offer(client: &VncInner, keycode: u32) -> Result<Option<ClientMsg>, VncError> {
    let event = X11Event::KeyEvent(ClientKeyEvent { keycode, down: true });
    let message = client.input(event)?;
    let mut input_ch = client.handles().input_ch.try_lock().unwrap();
    client.offer_input(&mut input_ch, message)
}

#[test]
fn messages_of_all_copies_stand_in_one_queue() {
    let (first, mut tasks) = client();
    let second = first.clone();
    assert_eq!(offer(&first, 1), Ok(None));
    assert_eq!(offer(&second, 2), Ok(None));
    assert_eq!(offer(&first, 3), Ok(None));
    for keycode in [1, 2, 3] {
        assert_eq!(tasks.input_ch.try_recv(), Ok(ClientMsg::KeyEvent(keycode, true)));
    }
    assert!(tasks.input_ch.try_recv().is_err());
}

#[test]
fn full_queue_hands_the_message_back() {
    let (client, mut tasks) = client();
    for keycode in 0..4 {
        assert_eq!(offer(&client, keycode), Ok(None));
    }
    assert_eq!(offer(&client, 4), Ok(Some(ClientMsg::KeyEvent(4, true))));
    for keycode in 0..4 {
        assert_eq!(tasks.input_ch.try_recv(), Ok(ClientMsg::KeyEvent(keycode, true)));
    }
    assert!(tasks.input_ch.try_recv().is_err());
    assert_eq!(offer(&client, 4), Ok(None));
    assert_eq!(tasks.input_ch.try_recv(), Ok(ClientMsg::KeyEvent(4, true)));
}

#[test]
fn message_for_an_ended_task_is_refused() {
    let (client, tasks) = client();
    drop(tasks);
    assert_eq!(offer(&client, 1), Err(VncError::ChannelClosed));
}

#[test]
fn closed_client_offers_no_message() {
    let (mut client, mut tasks) = client();
    close(&mut client).unwrap();
    let mut input_ch = client.handles().input_ch.try_lock().unwrap();
    let message = ClientMsg::KeyEvent(1, true);
    let left = client.offer_input(&mut input_ch, message);
    assert_eq!(left, Err(VncError::ClientNotRunning));
    assert!(tasks.input_ch.try_recv().is_err());
}

#[test]
fn client_goes_on_by_what_becomes_of_its_offer() {
    let (mut client, _tasks) = client();
    let message = || ClientMsg::KeyEvent(1, true);
    assert_eq!(client.offered_input(Offered::Taken), Ok(None));
    assert_eq!(client.offered_input(Offered::Full(message())), Ok(Some(message())));
    let refused = client.offered_input(Offered::Closed(message()));
    assert_eq!(refused, Err(VncError::ChannelClosed));
    close(&mut client).unwrap();
    assert_eq!(client.offered_input(Offered::Taken), Err(VncError::ClientNotRunning));
}

#[test]
fn channels_are_empty_and_hold_their_size() {
    let mut channels = Channels::new();
    assert_eq!(channels.conn_ch.0.max_capacity(), CHANNEL_SIZE);
    assert_eq!(channels.input_ch.0.max_capacity(), CHANNEL_SIZE);
    assert_eq!(channels.output_ch.0.max_capacity(), CHANNEL_SIZE);
    assert!(channels.conn_ch.1.try_recv().is_err());
    assert!(channels.input_ch.1.try_recv().is_err());
    assert!(channels.output_ch.1.try_recv().is_err());
    for _ in 0..CHANNEL_SIZE {
        channels.output_ch.0.try_send(VncEvent::Bell).unwrap();
    }
    assert!(channels.output_ch.0.try_send(VncEvent::Bell).is_err());
}
