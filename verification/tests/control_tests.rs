use zerodrop::control::{
    classify_peer_event, connected_event, disconnected_event, heartbeat_expired, next_attempt,
    reconnect_delay_secs, reconnecting_event, saturating_sub_i64, should_connect, socket_step,
    ws_connect_url, PeerEventKind, SocketAction, SocketEvent, HEARTBEAT_INTERVAL_MILLIS,
    HEARTBEAT_TIMEOUT_MILLIS,
};
use zerodrop::device::Device;

fn device() -> Device {
    Device {
        id: "zd_peer".to_string(),
        name: "Peer".to_string(),
        ip: "10.0.0.7".to_string(),
        port: 8765,
        public_key: None,
        trusted: true,
        platform: None,
        version: None,
        protocol_version: None,
        features: vec![],
        online: true,
        created_at: 0,
        last_seen_at: None,
        last_checked_at: None,
        last_error: None,
    }
}

fn stop_error(a: SocketAction) -> Option<Option<String>> {
    match a {
        SocketAction::Stop(e) => Some(e),
        _ => None,
    }
}

#[test]
fn timeouts() {
    assert_eq!(HEARTBEAT_INTERVAL_MILLIS, 5000);
    assert_eq!(HEARTBEAT_TIMEOUT_MILLIS, 15000);
    assert!(!heartbeat_expired(20000, 5000));
    assert!(heartbeat_expired(20001, 5000));
    assert_eq!(saturating_sub_i64(i64::MIN, 1), i64::MIN);
    assert_eq!(saturating_sub_i64(i64::MAX, -1), i64::MAX);
    assert_eq!(saturating_sub_i64(7, 10), -3);
}

#[test]
fn socket_steps() {
    let (seen, a) = socket_step(100, 500, SocketEvent::Text);
    assert_eq!(seen, 500);
    assert!(matches!(a, SocketAction::HandleText));
    let (seen, a) = socket_step(100, 600, SocketEvent::PingOrPong);
    assert_eq!(seen, 600);
    assert!(matches!(a, SocketAction::MarkEvent));
    let (seen, a) = socket_step(100, 600, SocketEvent::Binary);
    assert_eq!(seen, 100);
    assert!(matches!(a, SocketAction::Ignore));
    let (_, a) = socket_step(100, 600, SocketEvent::Closed);
    assert_eq!(stop_error(a), Some(None));
    let (_, a) = socket_step(100, 600, SocketEvent::ReadFailed("reset".to_string()));
    assert_eq!(stop_error(a), Some(Some("WebSocket 读取失败: reset".to_string())));
    let (_, a) = socket_step(100, 600, SocketEvent::WriteFailed("broken".to_string()));
    assert_eq!(stop_error(a), Some(Some("WebSocket 写入失败: broken".to_string())));
    let (_, a) = socket_step(100, 600, SocketEvent::HeartbeatFailed("gone".to_string()));
    assert_eq!(stop_error(a), Some(Some("gone".to_string())));
    let (_, a) = socket_step(100, 15100, SocketEvent::HeartbeatTick);
    assert!(matches!(a, SocketAction::SendHeartbeat));
    let (_, a) = socket_step(100, 15101, SocketEvent::HeartbeatTick);
    assert_eq!(stop_error(a), Some(Some("WebSocket 心跳超时".to_string())));
    let (_, a) = socket_step(100, 600, SocketEvent::Outbound);
    assert!(matches!(a, SocketAction::Forward));
    let (_, a) = socket_step(100, 600, SocketEvent::OutboundClosed);
    assert_eq!(stop_error(a), Some(None));
}

#[test]
fn heard_peer_survives_next_tick() {
    let (seen, _) = socket_step(0, 40000, SocketEvent::Text);
    let (_, a) = socket_step(seen, 55000, SocketEvent::HeartbeatTick);
    assert!(matches!(a, SocketAction::SendHeartbeat));
}

#[test]
fn event_kinds() {
    assert_eq!(classify_peer_event("hello"), PeerEventKind::Online);
    assert_eq!(classify_peer_event("deviceOnline"), PeerEventKind::Online);
    assert_eq!(classify_peer_event("deviceOffline"), PeerEventKind::Offline);
    assert_eq!(classify_peer_event("heartbeat"), PeerEventKind::Silent);
    assert_eq!(classify_peer_event("other"), PeerEventKind::Silent);
}

#[test]
fn backoff() {
    assert_eq!(reconnect_delay_secs(0), 1);
    assert_eq!(reconnect_delay_secs(1), 3);
    assert_eq!(reconnect_delay_secs(2), 10);
    assert_eq!(reconnect_delay_secs(50), 10);
    assert_eq!(next_attempt(3, true), 4);
    assert_eq!(next_attempt(3, false), 0);
    assert_eq!(next_attempt(usize::MAX, true), usize::MAX);
}

#[test]
fn connection_decisions() {
    assert!(should_connect("zd_peer", "zd_local", false));
    assert!(!should_connect("zd_local", "zd_local", false));
    assert!(!should_connect("zd_peer", "zd_local", true));
    assert_eq!(ws_connect_url(&device(), "zd_local"), "ws://10.0.0.7:8765/api/ws?deviceId=zd_local");
}

#[test]
fn connection_events() {
    let e = connected_event("zd_a".to_string(), Some("A".to_string()), 5);
    assert!(e.connected);
    assert_eq!(e.state, "connected");
    assert_eq!(e.last_event_at, Some(5));
    assert_eq!(e.error, None);
    let d = disconnected_event("zd_a".to_string(), None, 6, Some("x".to_string()));
    assert!(!d.connected);
    assert_eq!(d.state, "disconnected");
    assert_eq!(d.error, Some("x".to_string()));
    let r = reconnecting_event(&device(), 7, "refused".to_string());
    assert_eq!(r.peer_device_id, "zd_peer");
    assert_eq!(r.peer_device_name, Some("Peer".to_string()));
    assert_eq!(r.state, "reconnecting");
    assert_eq!(r.last_event_at, Some(7));
    assert_eq!(r.error, Some("refused".to_string()));
}
