use malai::manager::{
    FailureKind, ManagerAction, ManagerEvent, Phase, Reply, ReplyOutcome, StreamRequest,
    SubmitError, IDLE_BUDGET,
};
use malai::registry::{
    acquire_outcome, AcquireError, Acquired, GetStreamError, PeerKey, PeerStreamRegistry,
};
use malai::tag::{ProtocolHeader, ProtocolTag};

fn key(peer: &str) -> PeerKey {
    PeerKey::new("node-a".to_string(), peer.to_string())
}

fn request(reply: u64, protocol: ProtocolTag) -> StreamRequest {
    StreamRequest { header: ProtocolHeader { protocol, extra: None }, reply }
}

fn serve(registry: &mut PeerStreamRegistry, peer: &str, manager: u64) -> u64 {
    match registry.on_event(&key(peer), manager, ManagerEvent::RequestReady) {
        ManagerAction::Handshake(bytes) => assert_eq!(bytes, b"\"Execute\"\n".to_vec()),
        other => panic!("unexpected action {:?}", other),
    }
    match registry.on_event(&key(peer), manager, ManagerEvent::AckRead(b"ack".to_vec())) {
        ManagerAction::Deliver(ticket) => ticket,
        other => panic!("unexpected action {:?}", other),
    }
}

#[test]
fn registry_cold_dial_and_reuse() {
    let mut registry = PeerStreamRegistry::new();
    let first = registry.get_stream(key("node-b"), request(1, ProtocolTag::Execute)).unwrap();
    assert_eq!(first, Acquired { manager: 0, spawned: true });
    assert!(matches!(
        registry.on_event(&key("node-b"), first.manager, ManagerEvent::Dialed),
        ManagerAction::Wait
    ));
    assert_eq!(serve(&mut registry, "node-b", first.manager), 1);

    let second = registry.get_stream(key("node-b"), request(2, ProtocolTag::Execute)).unwrap();
    assert_eq!(second, Acquired { manager: 0, spawned: false });
    assert_eq!(serve(&mut registry, "node-b", second.manager), 2);
    assert_eq!(registry.len(), 1);
}

#[test]
fn registry_keeps_one_manager_per_key() {
    let mut registry = PeerStreamRegistry::new();
    let a = registry.acquire(key("node-b")).unwrap();
    let b = registry.acquire(key("node-b")).unwrap();
    let c = registry.acquire(key("node-c")).unwrap();
    let other_self = registry
        .acquire(PeerKey::new("node-z".to_string(), "node-b".to_string()))
        .unwrap();
    assert_eq!(a, Acquired { manager: 0, spawned: true });
    assert_eq!(b, Acquired { manager: 0, spawned: false });
    assert_eq!(c, Acquired { manager: 1, spawned: true });
    assert_eq!(other_self, Acquired { manager: 2, spawned: true });
    assert_eq!(registry.len(), 3);
    assert!(registry.contains(&key("node-b")));
    assert!(!registry.contains(&key("node-d")));
    assert_eq!(registry.lookup(&key("node-c")), Some((1, Phase::Dialing)));
    assert_eq!(registry.lookup(&key("node-d")), None);
}

#[test]
fn registry_idle_eviction_then_fresh_dial() {
    let mut registry = PeerStreamRegistry::new();
    let first = registry.get_stream(key("node-b"), request(1, ProtocolTag::Execute)).unwrap();
    registry.on_event(&key("node-b"), first.manager, ManagerEvent::Dialed);
    assert_eq!(serve(&mut registry, "node-b", first.manager), 1);
    let mut pings = 0;
    loop {
        assert!(matches!(
            registry.on_event(&key("node-b"), first.manager, ManagerEvent::IdleTick),
            ManagerAction::Ping
        ));
        pings += 1;
        match registry.on_event(&key("node-b"), first.manager, ManagerEvent::PingSucceeded) {
            ManagerAction::Wait => {}
            ManagerAction::Exit(exit) => {
                assert!(exit.failure.is_none());
                break;
            }
            other => panic!("unexpected action {:?}", other),
        }
    }
    assert_eq!(pings, IDLE_BUDGET);
    assert!(pings <= 5);
    assert!(!registry.contains(&key("node-b")));
    let again = registry.get_stream(key("node-b"), request(2, ProtocolTag::Execute)).unwrap();
    assert_eq!(again, Acquired { manager: 1, spawned: true });
}

#[test]
fn registry_degraded_link() {
    let mut registry = PeerStreamRegistry::new();
    let r1 = registry.get_stream(key("node-b"), request(1, ProtocolTag::Execute)).unwrap();
    registry.on_event(&key("node-b"), r1.manager, ManagerEvent::Dialed);
    assert!(matches!(
        registry.on_event(&key("node-b"), r1.manager, ManagerEvent::RequestReady),
        ManagerAction::Handshake(_)
    ));
    let r2 = registry.get_stream(key("node-b"), request(2, ProtocolTag::Execute)).unwrap();
    assert_eq!(r2.manager, r1.manager);
    match registry.on_event(
        &key("node-b"),
        r1.manager,
        ManagerEvent::HandshakeFailed("timed out".to_string()),
    ) {
        ManagerAction::Exit(exit) => {
            assert_eq!(
                exit.replies,
                vec![
                    Reply { reply: 1, outcome: ReplyOutcome::Failed(FailureKind::Handshake) },
                    Reply { reply: 2, outcome: ReplyOutcome::Failed(FailureKind::Handshake) },
                ]
            );
        }
        other => panic!("unexpected action {:?}", other),
    }
    assert!(!registry.contains(&key("node-b")));
    assert_eq!(registry.len(), 0);
    let r3 = registry.get_stream(key("node-b"), request(3, ProtocolTag::Execute)).unwrap();
    assert!(r3.spawned);
    assert_ne!(r3.manager, r1.manager);
}

#[test]
fn registry_stale_handle_is_turned_away() {
    let mut registry = PeerStreamRegistry::new();
    let old = registry.acquire(key("node-b")).unwrap();
    assert!(matches!(
        registry.on_event(&key("node-b"), old.manager, ManagerEvent::DialFailed("x".to_string())),
        ManagerAction::Exit(_)
    ));
    match registry.submit(&key("node-b"), old.manager, request(1, ProtocolTag::Execute)) {
        Err(SubmitError::Closed(back)) => assert_eq!(back.reply, 1),
        other => panic!("unexpected outcome {:?}", other),
    }
    let new = registry.acquire(key("node-b")).unwrap();
    assert!(new.spawned);
    match registry.submit(&key("node-b"), old.manager, request(2, ProtocolTag::Execute)) {
        Err(SubmitError::Closed(back)) => assert_eq!(back.reply, 2),
        other => panic!("unexpected outcome {:?}", other),
    }
    assert!(matches!(
        registry.on_event(&key("node-b"), old.manager, ManagerEvent::Dialed),
        ManagerAction::Unexpected
    ));
    assert!(registry.submit(&key("node-b"), new.manager, request(3, ProtocolTag::Execute)).is_ok());
}

#[test]
fn registry_full_queue_hands_the_request_back() {
    let mut registry = PeerStreamRegistry::new();
    let first = registry.get_stream(key("node-b"), request(1, ProtocolTag::Execute)).unwrap();
    match registry.get_stream(key("node-b"), request(2, ProtocolTag::Shell)) {
        Err(GetStreamError::Full(acquired, back)) => {
            assert_eq!(acquired, Acquired { manager: first.manager, spawned: false });
            assert_eq!(back.reply, 2);
        }
        other => panic!("unexpected outcome {:?}", other),
    }
    match registry.submit(&key("node-b"), first.manager, request(2, ProtocolTag::Shell)) {
        Err(SubmitError::Full(back)) => assert_eq!(back.reply, 2),
        other => panic!("unexpected outcome {:?}", other),
    }
}

#[test]
fn registry_caller_sees_one_kind_of_failure() {
    assert_eq!(acquire_outcome(Some(ReplyOutcome::Stream)), Ok(()));
    assert_eq!(
        acquire_outcome(Some(ReplyOutcome::Failed(FailureKind::Dial))),
        Err(AcquireError::Failed(FailureKind::Dial))
    );
    assert_eq!(acquire_outcome(None), Err(AcquireError::ReplyDropped));
}
