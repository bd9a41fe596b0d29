use open_protocol::client::{ConnectionError, Event, LoopState, Step, Wake};
use open_protocol::decode;
use open_protocol::encode;
use open_protocol::messages::communication::{MID0001rev7, MID0002rev1, MID0003rev1};
use open_protocol::messages::keep_alive::MID9999rev1;
use open_protocol::messages::parameter_set::{MID0010rev1, MID0011rev1};
use open_protocol::network::{read_message, FrameReader, ReadError};
use open_protocol::Message;
use std::collections::VecDeque;

fn yielded(step: Step) -> (Vec<u8>, Event) {
    match step {
        Step::Yield { flush, event } => (flush, event),
        other => panic!("the loop did not yield: {:?}", other),
    }
}

fn failed(step: Step) -> ConnectionError {
    match step {
        Step::Fail(error) => error,
        other => panic!("the loop did not fail: {:?}", other),
    }
}

fn wanted(step: Step) -> usize {
    match step {
        Step::Read { wanted } => wanted,
        other => panic!("the loop did not ask for bytes: {:?}", other),
    }
}

const PARAMETER_SETS: &[u8] = b"00380011001         005001002003010020\0";

fn parameter_sets() -> Message {
    Message::MID0011rev1(MID0011rev1 {
        number_of_parameter_sets: 5,
        parameter_set_ids: vec![1, 2, 3, 10, 20],
    })
}

#[test]
fn keep_alive_timer_sends_a_keep_alive() {
    let mut state = LoopState::new();
    assert_eq!(state.next_event(), None);
    let (flush, event) = yielded(state.step(Wake::KeepAlive));
    assert_eq!(flush, b"00209999            \0".to_vec());
    assert_eq!(event, Event::Outgoing(Message::MID9999rev1(MID9999rev1 {})));
    assert_eq!(state.next_event(), None);
    assert_eq!(state.flush(), Vec::<u8>::new());
}

#[test]
fn request_is_sent_and_reported_before_what_comes_in_after_it() {
    let mut state = LoopState::new();
    let request = || Message::MID0010rev1(MID0010rev1 {});
    let (flush, event) = yielded(state.step(Wake::Request(request())));
    assert_eq!(flush, b"00200010            \0".to_vec());
    assert_eq!(event, Event::Outgoing(request()));
    let (flush, event) = yielded(state.step(Wake::Received(PARAMETER_SETS.to_vec())));
    assert_eq!(flush, Vec::<u8>::new());
    assert_eq!(event, Event::Incoming(parameter_sets()));
}

#[test]
fn events_leave_in_the_order_in_which_they_came() {
    let mut state = LoopState::new();
    let start = || Message::MID0001rev1(MID0001rev7 { keep_alive: None });
    let stop = || Message::MID0003rev1(MID0003rev1 {});
    assert_eq!(state.handle_outgoing_packet(start()), Ok(()));
    assert_eq!(state.handle_outgoing_packet(stop()), Ok(()));
    let (flush, event) = yielded(state.step(Wake::Received(PARAMETER_SETS.to_vec())));
    assert_eq!(flush, b"00200001            \000200003            \0".to_vec());
    assert_eq!(event, Event::Outgoing(start()));
    assert_eq!(state.next_event(), Some(Event::Outgoing(stop())));
    assert_eq!(state.next_event(), Some(Event::Incoming(parameter_sets())));
    assert_eq!(state.next_event(), None);
}

#[test]
fn pending_requests_leave_in_the_order_in_which_they_came() {
    let mut state = LoopState::new();
    assert_eq!(state.next_request(), None);
    state.enqueue(Message::MID0001rev1(MID0001rev7 { keep_alive: None }));
    state.enqueue(Message::MID0003rev1(MID0003rev1 {}));
    assert_eq!(
        state.next_request(),
        Some(Message::MID0001rev1(MID0001rev7 { keep_alive: None }))
    );
    assert_eq!(state.next_request(), Some(Message::MID0003rev1(MID0003rev1 {})));
    assert_eq!(state.next_request(), None);
}

#[test]
fn request_that_cannot_be_encoded_fails_the_loop() {
    let mut state = LoopState::new();
    let request = Message::MID0002rev1(MID0002rev1 {
        cell_id: 1,
        channel_id: 1,
        controller_name: "a name that is longer than its field".into(),
    });
    assert_eq!(
        failed(state.step(Wake::Request(request))),
        ConnectionError::EncodeError(encode::Error::InvalidSize(25))
    );
    assert_eq!(state.flush(), Vec::<u8>::new());
    assert_eq!(state.next_event(), None);
}

#[test]
fn closed_channel_ends_the_loop() {
    let mut state = LoopState::new();
    assert_eq!(failed(state.step(Wake::RequestsDone)), ConnectionError::RequestsDone);
}

#[test]
fn peer_that_closes_between_frames_aborts() {
    let mut state = LoopState::new();
    assert_eq!(
        failed(state.step(Wake::Received(vec![]))),
        ConnectionError::IoError(ReadError::ConnectionAborted)
    );
    let (_, event) = yielded(state.step(Wake::Received(PARAMETER_SETS.to_vec())));
    assert_eq!(event, Event::Incoming(parameter_sets()));
    assert_eq!(
        failed(state.step(Wake::Received(vec![]))),
        ConnectionError::IoError(ReadError::ConnectionAborted)
    );
}

#[test]
fn peer_that_closes_inside_a_frame_resets() {
    let mut state = LoopState::new();
    assert_eq!(wanted(state.step(Wake::Received(PARAMETER_SETS[..5].to_vec()))), 15);
    assert_eq!(
        failed(state.step(Wake::Received(vec![]))),
        ConnectionError::IoError(ReadError::ConnectionReset)
    );
}

#[test]
fn frame_that_arrives_in_pieces() {
    let mut state = LoopState::new();
    assert_eq!(wanted(state.step(Wake::Inbound)), 20);
    assert_eq!(wanted(state.step(Wake::Received(PARAMETER_SETS[..5].to_vec()))), 15);
    assert_eq!(wanted(state.step(Wake::Received(PARAMETER_SETS[5..20].to_vec()))), 18);
    assert_eq!(wanted(state.step(Wake::Received(PARAMETER_SETS[20..38].to_vec()))), 1);
    let (_, event) = yielded(state.step(Wake::Received(PARAMETER_SETS[38..].to_vec())));
    assert_eq!(event, Event::Incoming(parameter_sets()));
    assert_eq!(wanted(state.step(Wake::Inbound)), 20);
}

#[test]
fn frames_that_arrive_together() {
    let mut state = LoopState::new();
    let mut bytes = PARAMETER_SETS.to_vec();
    bytes.extend_from_slice(b"00209999            \0");
    bytes.extend_from_slice(b"0020");
    let (_, event) = yielded(state.step(Wake::Received(bytes)));
    assert_eq!(event, Event::Incoming(parameter_sets()));
    let (_, event) = yielded(state.step(Wake::Inbound));
    assert_eq!(event, Event::Incoming(Message::MID9999rev1(MID9999rev1 {})));
    assert_eq!(wanted(state.step(Wake::Inbound)), 16);
}

#[test]
fn bytes_that_are_no_frame_fail_the_loop() {
    let mut state = LoopState::new();
    assert_eq!(
        failed(state.step(Wake::Received(b"hello, controller!!!!".to_vec()))),
        ConnectionError::IoError(ReadError::InvalidData(decode::Error::InvalidDigit(b'h', 0)))
    );
    let mut unknown = LoopState::new();
    assert_eq!(
        failed(unknown.step(Wake::Received(b"00200007            \0".to_vec()))),
        ConnectionError::IoError(ReadError::InvalidData(decode::Error::NotImplemented))
    );
}

#[test]
fn frame_reader_takes_frames_from_its_buffer() {
    let mut reader = FrameReader::new();
    let mut events = VecDeque::new();
    assert_eq!(reader.buffered(), 0);
    assert_eq!(reader.receive(b""), Err(ReadError::ConnectionAborted));
    assert_eq!(reader.read_next_frame(&mut events), Ok(Some(20)));
    assert_eq!(reader.receive(&PARAMETER_SETS[..30]), Ok(()));
    assert_eq!(reader.buffered(), 30);
    assert_eq!(reader.receive(b""), Err(ReadError::ConnectionReset));
    assert_eq!(reader.read_next_frame(&mut events), Ok(Some(8)));
    assert_eq!(reader.receive(&PARAMETER_SETS[30..]), Ok(()));
    assert_eq!(reader.receive(b"0020"), Ok(()));
    assert_eq!(reader.read_next_frame(&mut events), Ok(None));
    assert_eq!(reader.buffered(), 4);
    assert_eq!(events, VecDeque::from(vec![Event::Incoming(parameter_sets())]));
}

#[test]
fn message_at_the_start_of_a_stream() {
    assert_eq!(read_message(PARAMETER_SETS), Ok((parameter_sets(), 39)));
    assert_eq!(
        read_message(&PARAMETER_SETS[..19]),
        Err(decode::Error::InsufficientBytes { have: 19, need: 20 })
    );
    assert_eq!(
        read_message(&PARAMETER_SETS[..20]),
        Err(decode::Error::InsufficientBytes { have: 20, need: 38 })
    );
    assert_eq!(
        read_message(&PARAMETER_SETS[..37]),
        Err(decode::Error::InsufficientBytes { have: 37, need: 38 })
    );
    assert_eq!(
        read_message(&PARAMETER_SETS[..38]),
        Err(decode::Error::InsufficientBytes { have: 38, need: 39 })
    );
    assert_eq!(
        read_message(b"0038001100x         005001002003010020\0"),
        Err(decode::Error::InvalidDigit(b'x', 10))
    );
}

#[test]
fn frame_that_the_loop_writes_is_read_back_whole() {
    let mut state = LoopState::new();
    let (flush, _) = yielded(state.step(Wake::Request(parameter_sets())));
    assert_eq!(flush, b"00380011            005001002003010020\0".to_vec());
    assert_eq!(read_message(&flush), Ok((parameter_sets(), flush.len())));
    let mut reader = FrameReader::new();
    let mut events = VecDeque::new();
    assert_eq!(reader.receive(&flush), Ok(()));
    assert_eq!(reader.read_next_frame(&mut events), Ok(None));
    assert_eq!(reader.buffered(), 0);
    assert_eq!(events, VecDeque::from(vec![Event::Incoming(parameter_sets())]));
}
