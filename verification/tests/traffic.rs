use tokio::sync::{mpsc, oneshot};
use vnc::{
    ClientMsg, Machine, Offer, Offered, Pump, PumpAction, PumpInput, StopPoll, Traffic, TrafficAction,
    TrafficInput, VncError, CHANNEL_SIZE, READ_BUFFER_SIZE,
};

type Bytes = std::io::Result<Vec<u8>>;

fn holding(bytes: &[u8]) -> Pump {
    let (pump, action) = Pump::new().step(PumpInput::Read(bytes.to_vec())).unwrap();
    assert_eq!(action, PumpAction::Offer);
    pump
}

#[test]
fn buffers_have_their_sizes() {
    assert_eq!(CHANNEL_SIZE, 4096);
    assert_eq!(READ_BUFFER_SIZE, 65535);
}

#[test]
fn pump_holds_what_it_reads() {
    assert_eq!(Pump::new(), Pump::Reading);
    assert_eq!(holding(b"abc"), Pump::Holding(b"abc".to_vec()));
}

#[test]
fn pump_ends_with_the_network() {
    let end = Some((Pump::Ended, PumpAction::Finish));
    assert_eq!(Pump::new().step(PumpInput::Read(vec![])), end);
    assert_eq!(Pump::new().step(PumpInput::ReadFailed), end);
    assert_eq!(Pump::Ended.step(PumpInput::ReadFailed), None);
}

#[test]
fn pump_goes_on_by_what_becomes_of_its_offer() {
    assert_eq!(
        holding(b"abc").step(PumpInput::Offered(Offer::Taken)),
        Some((Pump::Reading, PumpAction::Read))
    );
    assert_eq!(
        holding(b"abc").step(PumpInput::Offered(Offer::Full)),
        Some((Pump::Holding(b"abc".to_vec()), PumpAction::Offer))
    );
    assert_eq!(
        holding(b"abc").step(PumpInput::Offered(Offer::Closed)),
        Some((Pump::Ended, PumpAction::Finish))
    );
}

#[test]
fn pump_reads_nothing_while_it_holds_bytes() {
    assert_eq!(holding(b"abc").step(PumpInput::Read(b"d".to_vec())), None);
    assert_eq!(Pump::new().step(PumpInput::Offered(Offer::Taken)), None);
}

#[test]
fn pump_hands_its_bytes_to_the_channel() {
    let (mut channel, mut receiver) = mpsc::channel::<Bytes>(1);
    assert_eq!(holding(b"abc").offer(&mut channel), Some((Pump::Reading, PumpAction::Read)));
    assert_eq!(receiver.try_recv().unwrap().unwrap(), b"abc".to_vec());
    assert!(receiver.try_recv().is_err());
}

#[test]
fn pump_keeps_its_bytes_if_the_channel_is_full() {
    let (mut channel, mut receiver) = mpsc::channel::<Bytes>(1);
    assert!(holding(b"abc").offer(&mut channel).is_some());
    let (pump, action) = holding(b"defg").offer(&mut channel).unwrap();
    assert_eq!(action, PumpAction::Offer);
    assert_eq!(pump, Pump::Holding(b"defg".to_vec()));
    assert_eq!(receiver.try_recv().unwrap().unwrap(), b"abc".to_vec());
    assert_eq!(pump.offer(&mut channel), Some((Pump::Reading, PumpAction::Read)));
    assert_eq!(receiver.try_recv().unwrap().unwrap(), b"defg".to_vec());
}

#[test]
fn pump_ends_if_the_channel_is_closed() {
    let (mut channel, receiver) = mpsc::channel::<Bytes>(1);
    drop(receiver);
    assert_eq!(holding(b"abc").offer(&mut channel), Some((Pump::Ended, PumpAction::Finish)));
}

#[test]
fn pump_offers_only_what_it_holds() {
    let (mut channel, mut receiver) = mpsc::channel::<Bytes>(1);
    assert_eq!(Pump::new().offer(&mut channel), None);
    assert_eq!(Pump::Ended.offer(&mut channel), None);
    assert!(receiver.try_recv().is_err());
}

#[test]
fn pump_reads_no_more_than_its_buffer_holds() {
    let most = vec![7_u8; READ_BUFFER_SIZE];
    let (pump, action) = Pump::new().step(PumpInput::Read(most.clone())).unwrap();
    assert_eq!(action, PumpAction::Offer);
    assert_eq!(pump, Pump::Holding(most));
    let too_many = vec![7_u8; READ_BUFFER_SIZE + 1];
    assert_eq!(Pump::new().step(PumpInput::Read(too_many)), None);
}

#[test]
fn pump_goes_on_with_what_it_is_handed_back() {
    assert_eq!(
        Pump::after_offer(Offered::Taken),
        Some((Pump::Reading, PumpAction::Read))
    );
    assert_eq!(
        Pump::after_offer(Offered::Full(Ok(b"abc".to_vec()))),
        Some((Pump::Holding(b"abc".to_vec()), PumpAction::Offer))
    );
    assert_eq!(
        Pump::after_offer(Offered::Closed(Ok(b"abc".to_vec()))),
        Some((Pump::Ended, PumpAction::Finish))
    );
    let failure = std::io::Error::from(std::io::ErrorKind::UnexpectedEof);
    assert_eq!(Pump::after_offer(Offered::Full(Err(failure))), None);
}

#[test]
fn stopped_connection_delivers_the_rest_of_the_stream() {
    let (stop, mut stop_ch) = oneshot::channel::<()>();
    let (mut channel, mut receiver) = mpsc::channel::<Bytes>(8);
    stop.send(()).unwrap();
    let (traffic, asked) = Traffic::new().poll_stop(&mut stop_ch).unwrap();
    assert_eq!(asked, TrafficAction::JoinPump);
    for piece in ["ab", "c", "def"] {
        let taken = holding(piece.as_bytes()).offer(&mut channel);
        assert_eq!(taken, Some((Pump::Reading, PumpAction::Read)));
    }
    let end = Some((Pump::Ended, PumpAction::Finish));
    assert_eq!(Pump::Reading.step(PumpInput::Read(vec![])), end);
    assert_eq!(
        traffic.step(TrafficInput::Done),
        Some((Traffic::Ended, TrafficAction::Finish(Ok(()))))
    );
    let mut received = Vec::new();
    while let Ok(piece) = receiver.try_recv() {
        received.extend(piece.unwrap());
    }
    assert_eq!(received, b"abcdef".to_vec());
}

#[test]
fn stream_goes_through_a_slow_channel_unchanged() {
    let (mut channel, mut receiver) = mpsc::channel::<Bytes>(2);
    let pieces: Vec<Vec<u8>> = (0..9_u8).map(|i| vec![i; i as usize + 1]).collect();
    let sent: Vec<u8> = pieces.concat();
    let mut left = pieces.into_iter();
    let mut received = Vec::new();
    let mut pump = Pump::new();
    let mut action = PumpAction::Read;
    while action != PumpAction::Finish {
        let taken = if action == PumpAction::Read {
            pump.step(PumpInput::Read(left.next().unwrap_or_default()))
        } else {
            pump.offer(&mut channel)
        };
        let (next, asked) = taken.unwrap();
        if action == PumpAction::Offer && asked == PumpAction::Offer {
            received.extend(receiver.try_recv().unwrap().unwrap());
        }
        pump = next;
        action = asked;
    }
    while let Ok(bytes) = receiver.try_recv() {
        received.extend(bytes.unwrap());
    }
    assert_eq!(received, sent);
}

fn drive(mut machine: Traffic, inputs: Vec<TrafficInput>) -> (Traffic, Vec<TrafficAction>) {
    let mut actions = Vec::new();
    for input in inputs {
        let (next, action) = machine.step(input).expect("an answer");
        machine = next;
        actions.push(action);
    }
    (machine, actions)
}

#[test]
fn messages_are_written_as_they_come() {
    let (end, actions) = drive(
        Traffic::new(),
        vec![
            TrafficInput::Stop(StopPoll::Empty),
            TrafficInput::Message(ClientMsg::KeyEvent(65, true)),
            TrafficInput::Done,
            TrafficInput::Stop(StopPoll::Empty),
            TrafficInput::Message(ClientMsg::KeyEvent(65, false)),
            TrafficInput::Done,
            TrafficInput::Stop(StopPoll::Requested),
            TrafficInput::Done,
        ],
    );
    assert_eq!(
        actions,
        vec![
            TrafficAction::Receive,
            TrafficAction::Write(ClientMsg::KeyEvent(65, true)),
            TrafficAction::PollStop,
            TrafficAction::Receive,
            TrafficAction::Write(ClientMsg::KeyEvent(65, false)),
            TrafficAction::PollStop,
            TrafficAction::JoinPump,
            TrafficAction::Finish(Ok(())),
        ]
    );
    assert_eq!(end, Traffic::Ended);
}

#[test]
fn message_that_cannot_be_written_ends_the_traffic() {
    let (end, actions) = drive(
        Traffic::new(),
        vec![
            TrafficInput::Stop(StopPoll::Empty),
            TrafficInput::Message(ClientMsg::PointerEvent(1, 2, 3)),
            TrafficInput::WriteFailed(VncError::General("broken pipe".to_string())),
        ],
    );
    let error = VncError::General("broken pipe".to_string());
    assert_eq!(actions[2], TrafficAction::Finish(Err(error)));
    assert_eq!(end, Traffic::Ended);
    assert!(end.step(TrafficInput::Done).is_none());
}

#[test]
fn stopped_traffic_takes_no_more_messages() {
    for poll in [StopPoll::Requested, StopPoll::Closed] {
        let (machine, actions) = drive(Traffic::new(), vec![TrafficInput::Stop(poll)]);
        assert_eq!(actions, vec![TrafficAction::JoinPump]);
        assert!(machine.step(TrafficInput::Message(ClientMsg::KeyEvent(1, true))).is_none());
        assert_eq!(
            machine.step(TrafficInput::Done),
            Some((Traffic::Ended, TrafficAction::Finish(Ok(()))))
        );
    }
}

#[test]
fn traffic_stops_while_it_waits_for_a_message() {
    for poll in [StopPoll::Requested, StopPoll::Closed] {
        let (waiting, _) = drive(Traffic::new(), vec![TrafficInput::Stop(StopPoll::Empty)]);
        assert_eq!(waiting, Traffic::Receiving);
        assert_eq!(waiting.step(TrafficInput::Stop(StopPoll::Empty)), None);
        let (end, actions) = drive(waiting, vec![TrafficInput::Stop(poll), TrafficInput::Done]);
        assert_eq!(actions, vec![TrafficAction::JoinPump, TrafficAction::Finish(Ok(()))]);
        assert_eq!(end, Traffic::Ended);
        assert_eq!(Traffic::Writing.step(TrafficInput::Stop(poll)), None);
    }
}

#[test]
fn pump_ends_if_the_decoding_loop_has_ended() {
    let end = Some((Pump::Ended, PumpAction::Finish));
    assert_eq!(Pump::new().step(PumpInput::LoopEnded), end);
    assert_eq!(holding(b"abc").step(PumpInput::LoopEnded), None);
    assert_eq!(Pump::Ended.step(PumpInput::LoopEnded), None);
}

#[test]
fn traffic_polls_its_stop_channel() {
    let (stop, mut stop_ch) = oneshot::channel();
    let (machine, action) = Traffic::new().poll_stop(&mut stop_ch).unwrap();
    assert_eq!(action, TrafficAction::Receive);
    assert!(machine.poll_stop(&mut stop_ch).is_none());
    stop.send(()).unwrap();
    let polled = Traffic::new().poll_stop(&mut stop_ch);
    assert_eq!(polled, Some((Traffic::Joining, TrafficAction::JoinPump)));
}
