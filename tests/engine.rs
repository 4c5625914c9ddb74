use nchat::{
    finish_send, on_receive, plan_send, receive_step, EngineError, LocalTime, LoopAction,
    RecvOutcome, SendFailure, StopAction, UdpMessageHandler,
};

fn noon() -> LocalTime {
    LocalTime { year: 2024, month: 3, day: 7, hour: 12, minute: 5, second: 9, millisecond: 42 }
}

#[test]
fn new_engine_is_idle() {
    let h = UdpMessageHandler::new("out.log", 50123);
    assert!(!h.is_receiving());
    assert_eq!(h.receive_port(), None);
    assert_eq!(h.local_send_port(), 50123);
    assert_eq!(h.output_file().as_str(), "out.log");
}

#[test]
fn start_records_port() {
    let mut h = UdpMessageHandler::new("out.log", 1);
    assert!(h.begin_start().is_ok());
    assert!(h.start_receiver(9000).is_ok());
    assert!(h.is_receiving());
    assert_eq!(h.receive_port(), Some(9000));
}

#[test]
fn second_start_is_rejected() {
    let mut h = UdpMessageHandler::new("out.log", 1);
    h.start_receiver(9000).unwrap();
    assert!(matches!(h.begin_start(), Err(EngineError::AlreadyRunning)));
    assert!(matches!(h.start_receiver(9000), Err(EngineError::AlreadyRunning)));
    assert!(matches!(h.start_receiver(9001), Err(EngineError::AlreadyRunning)));
    assert_eq!(h.receive_port(), Some(9000));
    assert!(h.is_receiving());
}

#[test]
fn restart_after_stop() {
    let mut h = UdpMessageHandler::new("out.log", 1);
    h.start_receiver(9000).unwrap();
    assert_eq!(h.stop_receiver(), StopAction::JoinReceiver);
    assert!(!h.is_receiving());
    assert_eq!(h.receive_port(), None);
    assert!(h.start_receiver(9000).is_ok());
    assert_eq!(h.receive_port(), Some(9000));
}

#[test]
fn stop_twice_is_harmless() {
    let mut h = UdpMessageHandler::new("out.log", 7);
    h.start_receiver(9000).unwrap();
    assert_eq!(h.stop_receiver(), StopAction::JoinReceiver);
    assert_eq!(h.stop_receiver(), StopAction::Nothing);
    assert_eq!(h.receive_port(), None);
    assert_eq!(h.local_send_port(), 7);
}

#[test]
fn stop_when_idle_does_nothing() {
    let mut h = UdpMessageHandler::new("out.log", 7);
    assert_eq!(h.stop_receiver(), StopAction::Nothing);
}

#[test]
fn invalid_address_is_rejected_before_sending() {
    match plan_send("not-an-address", false) {
        Err(EngineError::InvalidAddress(t)) => assert_eq!(t, "not-an-address"),
        other => panic!("unexpected {:?}", other),
    }
    assert!(plan_send("127.0.0.1:9000", true).is_ok());
}

#[test]
fn full_send_returns_byte_count() {
    let r = finish_send("127.0.0.1:9000", "héllo", Ok(6));
    assert_eq!(r.unwrap(), 6);
}

#[test]
fn short_send_is_an_error() {
    match finish_send("127.0.0.1:9000", "hello", Ok(3)) {
        Err(EngineError::ShortSend { sent, expected }) => {
            assert_eq!(sent, 3);
            assert_eq!(expected, 5);
        }
        other => panic!("unexpected {:?}", other),
    }
}

#[test]
fn send_timeout_means_unreachable() {
    match finish_send("10.0.0.1:9", "x", Err(SendFailure::TimedOut)) {
        Err(EngineError::Unreachable(t)) => assert_eq!(t, "10.0.0.1:9"),
        other => panic!("unexpected {:?}", other),
    }
}

#[test]
fn other_send_error_is_passed_on() {
    match finish_send("10.0.0.1:9", "x", Err(SendFailure::Other("denied".to_string()))) {
        Err(EngineError::Io(m)) => assert_eq!(m, "denied"),
        other => panic!("unexpected {:?}", other),
    }
}

#[test]
fn datagram_becomes_one_log_line() {
    let outcome = RecvOutcome::Datagram {
        payload: b"hello".to_vec(),
        source: "127.0.0.1:12345".to_string(),
    };
    match receive_step(&outcome, &noon()) {
        LoopAction::Append(line) => {
            assert_eq!(line, "[2024-03-07 12:05:09.042] FROM 127.0.0.1:12345: hello\n");
        }
        other => panic!("unexpected {:?}", other),
    }
}

#[test]
fn binary_datagram_is_logged_with_placeholder() {
    let outcome = RecvOutcome::Datagram {
        payload: vec![0xff, 0xfe, 0x00, 0x80],
        source: "10.1.2.3:4000".to_string(),
    };
    match receive_step(&outcome, &noon()) {
        LoopAction::Append(line) => {
            assert_eq!(line, "[2024-03-07 12:05:09.042] FROM 10.1.2.3:4000: <BINARY DATA: 4 bytes>\n");
        }
        other => panic!("unexpected {:?}", other),
    }
}

#[test]
fn read_timeout_is_idle() {
    assert!(matches!(receive_step(&RecvOutcome::TimedOut, &noon()), LoopAction::Idle));
}

#[test]
fn read_failure_is_reported() {
    match receive_step(&RecvOutcome::Failed("reset".to_string()), &noon()) {
        LoopAction::Report(m) => assert_eq!(m, "receive error: reset"),
        other => panic!("unexpected {:?}", other),
    }
}

#[test]
fn received_hello_is_logged_with_a_clock_stamp() {
    let outcome = RecvOutcome::Datagram {
        payload: b"hello".to_vec(),
        source: "127.0.0.1:12345".to_string(),
    };
    match on_receive(&outcome) {
        LoopAction::Append(line) => {
            assert!(line.starts_with('['));
            assert_eq!(line.find(']'), Some(24));
            assert!(line.ends_with("] FROM 127.0.0.1:12345: hello\n"));
            let stamp = &line[1..24];
            for (i, c) in stamp.chars().enumerate() {
                match i {
                    4 | 7 => assert_eq!(c, '-'),
                    10 => assert_eq!(c, ' '),
                    13 | 16 => assert_eq!(c, ':'),
                    19 => assert_eq!(c, '.'),
                    _ => assert!(c.is_ascii_digit()),
                }
            }
        }
        other => panic!("unexpected {:?}", other),
    }
}
