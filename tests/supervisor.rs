use chess_bot::cache::{EntityCache, ResourceType};
use chess_bot::supervisor::{
    reconnect_delay, status_text, ConnectionState, ConnectionSupervisor, InboundEvent, InboundMessage, Snapshot,
    SupervisorAction, HEARTBEAT_DELAY,
};

fn snapshot() -> Snapshot {
    Snapshot {
        users: vec![("u".into(), "U".into())],
        servers: vec![("s1".into(), "S1".into()), ("s2".into(), "S2".into())],
        channels: vec![("c".into(), "C".into())],
        emojis: vec![],
    }
}

fn message() -> InboundMessage {
    InboundMessage { author: "a".into(), conversation: "c".into(), text: "!help".into(), message_id: "m".into() }
}

fn live() -> (ConnectionSupervisor, EntityCache) {
    let mut s = ConnectionSupervisor::new();
    let mut c = EntityCache::new();
    s.connect();
    s.stream_opened();
    s.on_event(&mut c, InboundEvent::Ready(snapshot()));
    (s, c)
}

#[test]
fn ready_loads_snapshot_and_pings() {
    let mut s = ConnectionSupervisor::new();
    let mut c = EntityCache::new();
    assert_eq!(s.state, ConnectionState::Disconnected);
    s.connect();
    assert_eq!(s.state, ConnectionState::Connecting);
    s.stream_opened();
    assert_eq!(s.state, ConnectionState::AwaitingSnapshot);
    let actions = s.on_event(&mut c, InboundEvent::Ready(snapshot()));
    assert_eq!(s.state, ConnectionState::Live);
    assert_eq!(c.len(ResourceType::Server), 2);
    assert_eq!(c.get_only(ResourceType::User, "u").unwrap().payload, "U");
    assert_eq!(c.get_only(ResourceType::Channel, "c").unwrap().payload, "C");
    assert_eq!(actions.len(), 2);
    assert!(matches!(&actions[0], SupervisorAction::UpdateStatus(t) if t == "servers: 2"));
    assert!(matches!(actions[1], SupervisorAction::SendHeartbeat { token: 0, delay: 0 }));
}

#[test]
fn heartbeat_is_echoed_later() {
    let (mut s, mut c) = live();
    let actions = s.on_event(&mut c, InboundEvent::Heartbeat(42));
    assert_eq!(actions.len(), 1);
    assert!(matches!(actions[0], SupervisorAction::SendHeartbeat { token: 42, delay } if delay == HEARTBEAT_DELAY));
    assert_eq!(HEARTBEAT_DELAY, 10);
}

#[test]
fn messages_are_dispatched_when_live() {
    let (mut s, mut c) = live();
    let actions = s.on_event(&mut c, InboundEvent::Message(message()));
    assert!(matches!(&actions[..], [SupervisorAction::Dispatch(m)] if m.text == "!help" && m.message_id == "m"));
    assert!(s.on_event(&mut c, InboundEvent::Other).is_empty());
}

#[test]
fn nothing_before_snapshot() {
    let mut s = ConnectionSupervisor::new();
    let mut c = EntityCache::new();
    s.connect();
    s.stream_opened();
    assert!(s.on_event(&mut c, InboundEvent::Message(message())).is_empty());
    assert!(s.on_event(&mut c, InboundEvent::Heartbeat(1)).is_empty());
    assert_eq!(s.state, ConnectionState::AwaitingSnapshot);
}

#[test]
fn reconnect_backs_off_and_keeps_cache() {
    let (mut s, c) = live();
    assert_eq!(s.stream_closed(), 1);
    assert_eq!(s.state, ConnectionState::Disconnected);
    assert_eq!(c.len(ResourceType::Server), 2);
    let delays: Vec<u64> = (0..8).map(|_| s.stream_closed()).collect();
    assert_eq!(delays, vec![2, 4, 8, 16, 32, 64, 64, 64]);
    let mut c = c;
    s.connect();
    s.stream_opened();
    s.on_event(&mut c, InboundEvent::Ready(snapshot()));
    assert_eq!(s.failures, 0);
}

#[test]
fn delays_and_status() {
    assert_eq!(reconnect_delay(0), 1);
    assert_eq!(reconnect_delay(5), 32);
    assert_eq!(reconnect_delay(u32::MAX), 64);
    assert_eq!(status_text(0), "servers: 0");
    assert_eq!(status_text(1234), "servers: 1234");
}
