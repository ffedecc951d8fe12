use malai::manager::{
    ConnectionManager, FailureKind, ManagerAction, ManagerEvent, Phase, Reply, ReplyOutcome,
    StreamRequest, SubmitError, CHANNEL_CAPACITY, IDLE_BUDGET, IDLE_TICK_SECS,
};
use malai::tag::{ProtocolHeader, ProtocolTag};

fn request(reply: u64, protocol: ProtocolTag) -> StreamRequest {
    StreamRequest { header: ProtocolHeader { protocol, extra: None }, reply }
}

fn connected() -> ConnectionManager {
    let mut manager = ConnectionManager::new();
    assert!(matches!(manager.on_event(ManagerEvent::Dialed), ManagerAction::Wait));
    manager
}

#[test]
fn manager_constants() {
    assert_eq!(IDLE_TICK_SECS, 12);
    assert_eq!(IDLE_BUDGET, 5);
    assert_eq!(CHANNEL_CAPACITY, 1);
}

#[test]
fn manager_dials_then_waits() {
    let mut manager = ConnectionManager::new();
    assert_eq!(manager.phase(), Phase::Dialing);
    assert!(!manager.has_ended());
    assert!(matches!(manager.on_event(ManagerEvent::Dialed), ManagerAction::Wait));
    assert_eq!(manager.phase(), Phase::Idle);
    assert_eq!(manager.idle_counter(), 0);
}

#[test]
fn manager_fails_pending_on_dial_failure() {
    let mut manager = ConnectionManager::new();
    assert!(manager.submit(request(7, ProtocolTag::Execute)).is_ok());
    match manager.on_event(ManagerEvent::DialFailed("unreachable".to_string())) {
        ManagerAction::Exit(exit) => {
            assert_eq!(
                exit.replies,
                vec![Reply { reply: 7, outcome: ReplyOutcome::Failed(FailureKind::Dial) }]
            );
            let failure = exit.failure.unwrap();
            assert_eq!(failure.kind, FailureKind::Dial);
            assert_eq!(failure.detail, "unreachable");
        }
        other => panic!("unexpected action {:?}", other),
    }
    assert_eq!(manager.phase(), Phase::Failed(FailureKind::Dial));
    assert!(manager.has_ended());
    assert_eq!(manager.waiting(), 0);
}

#[test]
fn manager_writes_header_and_delivers_on_ack() {
    let mut manager = connected();
    let with_extra = StreamRequest {
        header: ProtocolHeader {
            protocol: ProtocolTag::Http,
            extra: Some("example.com".to_string()),
        },
        reply: 3,
    };
    assert!(manager.submit(with_extra).is_ok());
    match manager.on_event(ManagerEvent::RequestReady) {
        ManagerAction::Handshake(bytes) => {
            assert_eq!(bytes, b"\"Http\"\nexample.com\n".to_vec())
        }
        other => panic!("unexpected action {:?}", other),
    }
    assert_eq!(manager.phase(), Phase::Handshaking);
    match manager.on_event(ManagerEvent::AckRead(b"ack".to_vec())) {
        ManagerAction::Deliver(ticket) => assert_eq!(ticket, 3),
        other => panic!("unexpected action {:?}", other),
    }
    assert_eq!(manager.phase(), Phase::Idle);
}

#[test]
fn manager_serves_in_order_of_arrival() {
    let mut manager = connected();
    let tags = [ProtocolTag::Execute, ProtocolTag::Shell, ProtocolTag::ConfigSync];
    let mut served = Vec::new();
    let mut next = 0usize;
    while served.len() < tags.len() {
        if next < tags.len() && manager.submit(request(next as u64, tags[next])).is_ok() {
            next += 1;
        }
        match manager.on_event(ManagerEvent::RequestReady) {
            ManagerAction::Handshake(_) => {}
            other => panic!("unexpected action {:?}", other),
        }
        // the queue has room for one more while a request is being served
        if next < tags.len() && manager.submit(request(next as u64, tags[next])).is_ok() {
            next += 1;
        }
        match manager.on_event(ManagerEvent::AckRead(b"ack".to_vec())) {
            ManagerAction::Deliver(ticket) => served.push(ticket),
            other => panic!("unexpected action {:?}", other),
        }
    }
    assert_eq!(served, vec![0, 1, 2]);
}

#[test]
fn manager_queue_holds_one_waiting_request() {
    let mut manager = connected();
    assert!(manager.submit(request(1, ProtocolTag::Execute)).is_ok());
    match manager.submit(request(2, ProtocolTag::Shell)) {
        Err(SubmitError::Full(back)) => assert_eq!(back.reply, 2),
        other => panic!("unexpected outcome {:?}", other),
    }
    assert_eq!(manager.waiting(), 1);
}

#[test]
fn manager_ack_mismatch_fails_everyone_waiting() {
    let mut manager = connected();
    assert!(manager.submit(request(1, ProtocolTag::Execute)).is_ok());
    assert!(matches!(manager.on_event(ManagerEvent::RequestReady), ManagerAction::Handshake(_)));
    assert!(manager.submit(request(2, ProtocolTag::Shell)).is_ok());
    match manager.on_event(ManagerEvent::AckRead(b"nack".to_vec())) {
        ManagerAction::Exit(exit) => {
            assert_eq!(
                exit.replies,
                vec![
                    Reply { reply: 1, outcome: ReplyOutcome::Failed(FailureKind::AckMismatch) },
                    Reply { reply: 2, outcome: ReplyOutcome::Failed(FailureKind::AckMismatch) },
                ]
            );
            let failure = exit.failure.unwrap();
            assert_eq!(failure.kind, FailureKind::AckMismatch);
            assert_eq!(failure.detail, "nack");
        }
        other => panic!("unexpected action {:?}", other),
    }
    match manager.submit(request(3, ProtocolTag::Execute)) {
        Err(SubmitError::Closed(back)) => assert_eq!(back.reply, 3),
        other => panic!("unexpected outcome {:?}", other),
    }
}

#[test]
fn manager_ack_that_is_no_text_is_a_handshake_failure() {
    let mut manager = connected();
    assert!(manager.submit(request(1, ProtocolTag::Execute)).is_ok());
    assert!(matches!(manager.on_event(ManagerEvent::RequestReady), ManagerAction::Handshake(_)));
    match manager.on_event(ManagerEvent::AckRead(vec![0xff, 0xfe])) {
        ManagerAction::Exit(exit) => {
            let failure = exit.failure.unwrap();
            assert_eq!(failure.kind, FailureKind::Handshake);
            assert_eq!(failure.detail, "acknowledgement is not valid UTF-8");
            assert_eq!(exit.replies.len(), 1);
        }
        other => panic!("unexpected action {:?}", other),
    }
    assert_eq!(manager.phase(), Phase::Failed(FailureKind::Handshake));
}

#[test]
fn manager_idle_eviction_after_budget() {
    let mut manager = connected();
    for tick in 1..=IDLE_BUDGET {
        assert!(matches!(manager.on_event(ManagerEvent::IdleTick), ManagerAction::Ping));
        assert_eq!(manager.phase(), Phase::Pinging);
        let action = manager.on_event(ManagerEvent::PingSucceeded);
        if tick < IDLE_BUDGET {
            assert!(matches!(action, ManagerAction::Wait));
            assert_eq!(manager.idle_counter(), tick);
            assert_eq!(manager.phase(), Phase::Idle);
        } else {
            match action {
                ManagerAction::Exit(exit) => {
                    assert!(exit.failure.is_none());
                    assert!(exit.replies.is_empty());
                }
                other => panic!("unexpected action {:?}", other),
            }
            assert_eq!(manager.phase(), Phase::Closed);
        }
    }
}

#[test]
fn manager_request_resets_idle_counter() {
    let mut manager = connected();
    for _ in 0..3 {
        assert!(matches!(manager.on_event(ManagerEvent::IdleTick), ManagerAction::Ping));
        assert!(matches!(manager.on_event(ManagerEvent::PingSucceeded), ManagerAction::Wait));
    }
    assert_eq!(manager.idle_counter(), 3);
    assert!(manager.submit(request(9, ProtocolTag::Tcp)).is_ok());
    assert!(matches!(manager.on_event(ManagerEvent::RequestReady), ManagerAction::Handshake(_)));
    assert_eq!(manager.idle_counter(), 0);
}

#[test]
fn manager_ping_failure_is_an_error() {
    let mut manager = connected();
    assert!(manager.submit(request(4, ProtocolTag::Execute)).is_ok());
    assert!(matches!(manager.on_event(ManagerEvent::IdleTick), ManagerAction::Ping));
    match manager.on_event(ManagerEvent::PingFailed("no pong".to_string())) {
        ManagerAction::Exit(exit) => {
            let failure = exit.failure.unwrap();
            assert_eq!(failure.kind, FailureKind::Ping);
            assert_eq!(failure.detail, "no pong");
            assert_eq!(
                exit.replies,
                vec![Reply { reply: 4, outcome: ReplyOutcome::Failed(FailureKind::Ping) }]
            );
        }
        other => panic!("unexpected action {:?}", other),
    }
}

#[test]
fn manager_shutdown_answers_what_is_left_with_closed() {
    let mut manager = connected();
    assert!(manager.submit(request(5, ProtocolTag::Execute)).is_ok());
    match manager.on_event(ManagerEvent::Cancelled) {
        ManagerAction::Exit(exit) => {
            assert!(exit.failure.is_none());
            assert_eq!(
                exit.replies,
                vec![Reply { reply: 5, outcome: ReplyOutcome::Failed(FailureKind::Closed) }]
            );
        }
        other => panic!("unexpected action {:?}", other),
    }
    assert_eq!(manager.phase(), Phase::Closed);
    let mut other = connected();
    assert!(matches!(other.on_event(ManagerEvent::SendersGone), ManagerAction::Exit(_)));
    assert_eq!(other.phase(), Phase::Closed);
}

#[test]
fn manager_ignores_events_out_of_phase() {
    let mut manager = ConnectionManager::new();
    assert!(matches!(manager.on_event(ManagerEvent::PingSucceeded), ManagerAction::Unexpected));
    assert!(matches!(manager.on_event(ManagerEvent::IdleTick), ManagerAction::Unexpected));
    assert_eq!(manager.phase(), Phase::Dialing);
    let mut manager = connected();
    assert!(matches!(
        manager.on_event(ManagerEvent::AckRead(b"ack".to_vec())),
        ManagerAction::Unexpected
    ));
    assert!(matches!(manager.on_event(ManagerEvent::RequestReady), ManagerAction::Wait));
    assert!(matches!(manager.on_event(ManagerEvent::Cancelled), ManagerAction::Exit(_)));
    assert!(matches!(manager.on_event(ManagerEvent::Dialed), ManagerAction::Unexpected));
    assert_eq!(manager.phase(), Phase::Closed);
}

#[test]
fn manager_handshake_io_failure_carries_the_reason() {
    let mut manager = connected();
    assert!(manager.submit(request(1, ProtocolTag::Execute)).is_ok());
    assert!(matches!(manager.on_event(ManagerEvent::RequestReady), ManagerAction::Handshake(_)));
    match manager.on_event(ManagerEvent::HandshakeFailed("failed to open_bi".to_string())) {
        ManagerAction::Exit(exit) => {
            let failure = exit.failure.unwrap();
            assert_eq!(failure.kind, FailureKind::Handshake);
            assert_eq!(failure.detail, "failed to open_bi");
        }
        other => panic!("unexpected action {:?}", other),
    }
}
