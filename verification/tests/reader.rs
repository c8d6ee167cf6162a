use canbusnoop::config::{Config, Error};
use canbusnoop::demo::Reader;
use canbusnoop::frame::Frame;
use canbusnoop::reader::{Action, CanBusReader, Event, State};

fn hardware() -> CanBusReader {
    CanBusReader::new(Config::new("can0".to_string()).unwrap())
}

fn synthetic() -> CanBusReader {
    CanBusReader::new(Config::new("demo".to_string()).unwrap())
}

#[test]
fn hardware_source_starts_unopened_and_asks_for_its_socket() {
    let reader = hardware();
    assert_eq!(reader.state(), State::Unopened);
    match reader.next_action() {
        Action::Open(name) => assert_eq!(name, "can0"),
        other => panic!("{:?}", other),
    }
}

#[test]
fn opened_socket_opens_the_source() {
    let mut reader = hardware();
    assert!(reader.opened(Ok(())).is_ok());
    assert_eq!(reader.state(), State::Open);
    assert!(matches!(reader.next_action(), Action::Receive));
}

#[test]
fn failed_socket_closes_the_source_with_an_error() {
    let mut reader = hardware();
    match reader.opened(Err("No such device (os error 19)".to_string())) {
        Err(Error::SocketCanError(words)) => assert_eq!(words, "No such device (os error 19)"),
        other => panic!("{:?}", other),
    }
    assert_eq!(reader.state(), State::Closed);
    assert!(matches!(reader.next_action(), Action::Stop));
    assert!(reader.read(Event::Received(Frame::new(1, vec![]))).is_none());
}

#[test]
fn hardware_source_hands_frames_on_as_they_are() {
    let mut reader = hardware();
    reader.opened(Ok(())).unwrap();
    for i in 0..10u32 {
        let frame = reader.read(Event::Received(Frame::new(0x100 + i, vec![i as u8; 8]))).unwrap();
        assert_eq!(frame.id(), 0x100 + i);
        assert_eq!(frame.data(), &[i as u8; 8][..]);
        assert_eq!(reader.state(), State::Open);
        assert!(matches!(reader.next_action(), Action::Receive));
    }
}

#[test]
fn lost_socket_ends_the_stream_for_good() {
    let mut reader = hardware();
    reader.opened(Ok(())).unwrap();
    assert!(reader.read(Event::Received(Frame::new(1, vec![1]))).is_some());
    assert!(reader.read(Event::Lost).is_none());
    assert_eq!(reader.state(), State::Closed);
    assert!(matches!(reader.next_action(), Action::Stop));
    // Closed, the source gives no frame, whatever it is handed.
    assert!(reader.read(Event::Received(Frame::new(1, vec![1]))).is_none());
    assert!(reader.read(Event::Elapsed).is_none());
    assert!(reader.read(Event::Lost).is_none());
    assert_eq!(reader.state(), State::Closed);
    assert!(reader.opened(Ok(())).is_ok());
    assert_eq!(reader.state(), State::Closed);
}

#[test]
fn reading_an_unopened_source_closes_it() {
    let mut reader = hardware();
    assert!(reader.read(Event::Received(Frame::new(1, vec![1]))).is_none());
    assert_eq!(reader.state(), State::Closed);
}

#[test]
fn event_not_asked_for_closes_the_source() {
    let mut reader = hardware();
    reader.opened(Ok(())).unwrap();
    assert!(reader.read(Event::Elapsed).is_none());
    assert_eq!(reader.state(), State::Closed);

    let mut reader = synthetic();
    assert!(reader.read(Event::Received(Frame::new(1, vec![1]))).is_none());
    assert_eq!(reader.state(), State::Closed);

    let mut reader = synthetic();
    assert!(reader.read(Event::Lost).is_none());
    assert_eq!(reader.state(), State::Closed);
}

#[test]
fn synthetic_source_is_open_at_once() {
    let reader = synthetic();
    assert_eq!(reader.state(), State::Open);
    match reader.next_action() {
        Action::Sleep(millis) => assert!(1 <= millis && millis < 100),
        other => panic!("{:?}", other),
    }
}

#[test]
fn synthetic_source_gives_its_readers_frames() {
    let mut source = synthetic();
    let mut reader = Reader::new();
    for _ in 0..100 {
        match source.next_action() {
            Action::Sleep(millis) => assert_eq!(millis, reader.delay()),
            other => panic!("{:?}", other),
        }
        let frame = source.read(Event::Elapsed).unwrap();
        let expected = reader.read();
        assert_eq!(frame.id(), expected.id());
        assert_eq!(frame.data(), expected.data());
        assert_eq!(source.state(), State::Open);
    }
}

#[test]
fn two_synthetic_sources_give_the_same_stream() {
    let mut first = synthetic();
    let mut second = synthetic();
    for _ in 0..300 {
        let a = match first.next_action() {
            Action::Sleep(millis) => millis,
            other => panic!("{:?}", other),
        };
        let b = match second.next_action() {
            Action::Sleep(millis) => millis,
            other => panic!("{:?}", other),
        };
        assert_eq!(a, b);
        let a = first.read(Event::Elapsed).unwrap();
        let b = second.read(Event::Elapsed).unwrap();
        assert_eq!(a.id(), b.id());
        assert_eq!(a.data(), b.data());
    }
}

#[test]
fn failure_report_closes_the_synthetic_source_too() {
    let mut reader = synthetic();
    assert!(reader.opened(Ok(())).is_ok());
    assert_eq!(reader.state(), State::Open);
    assert!(reader.opened(Err("gone".to_string())).is_err());
    assert_eq!(reader.state(), State::Closed);
}
