use zerodrop::clock::{millis_or_zero, millis_to_timestamp, unix_millis, unix_millis_wide};
use zerodrop::config::AppConfig;
use zerodrop::ids::{new_device_id, new_event_id, new_message_id, new_session_id, new_transfer_id, new_uuid_simple};
use zerodrop::numeric::{u128_to_i64_saturating, u64_to_i64_saturating, usize_to_i64_saturating};
use zerodrop::security::Identity;
use zerodrop::session::LocalWsIdentity;
use zerodrop::status::{
    agent_status_event, bind_addr, copy_status, failed_status, features, hello_from_rust,
    local_info, ping_response, running_status, starting_status, stopped_status, ServerState,
};
use zerodrop::store::{device_from_row, features_column, features_from_column, port_from_column, DeviceRow, SqliteStore};
use zerodrop::text::{contains_str, decimal_string, is_blank_str, str_eq, trim};
use zerodrop::transport::{endpoint_url, http_status_error, ping_url, QuicTransport, Transport, TransportPing};
use zerodrop::device::DeviceEndpoint;
use zerodrop::ws_event::{device_ws_event, WsEvent};

fn config() -> AppConfig {
    AppConfig {
        device_id: "zd_me".to_string(),
        device_name: "Me".to_string(),
        listen_host: "0.0.0.0".to_string(),
        listen_port: 8765,
        download_dir: "/dl".to_string(),
        protocol_version: 1,
        version: "0.1.0".to_string(),
    }
}

fn is_hex(s: &str) -> bool {
    s.len() == 32 && s.chars().all(|c| c.is_ascii_digit() || ('a'..='f').contains(&c))
}

#[test]
fn ids_have_prefix_and_uuid() {
    let m = new_message_id();
    assert!(m.starts_with("msg_") && is_hex(&m[4..]));
    let a = new_message_id();
    assert_ne!(a, m);
    assert!(new_transfer_id().starts_with("tr_"));
    assert!(is_hex(&new_transfer_id()[3..]));
    assert!(new_session_id().starts_with("wss_"));
    assert!(new_event_id().starts_with("evt_"));
    assert!(new_device_id().starts_with("zd_"));
    assert!(is_hex(&new_uuid_simple()));
}

#[test]
fn clock_readings() {
    assert!(unix_millis() > 1_600_000_000_000);
    assert!(unix_millis_wide() > 1_600_000_000_000);
    assert_eq!(millis_to_timestamp(None), 0);
    assert_eq!(millis_to_timestamp(Some(5)), 5);
    assert_eq!(millis_to_timestamp(Some(u128::MAX)), i64::MAX);
    assert_eq!(millis_or_zero(None), 0);
    assert_eq!(millis_or_zero(Some(9)), 9);
}

#[test]
fn saturating_conversions() {
    assert_eq!(usize_to_i64_saturating(5), 5);
    assert_eq!(u64_to_i64_saturating(u64::MAX), i64::MAX);
    assert_eq!(u128_to_i64_saturating(1 << 70), i64::MAX);
}

#[test]
fn text_helpers() {
    assert_eq!(trim("\u{3000} a b \n"), "a b");
    assert_eq!(trim("   "), "");
    assert!(is_blank_str(" \t"));
    assert!(!is_blank_str(" x"));
    assert!(contains_str("http://x", "://"));
    assert!(!contains_str("x:80", "://"));
    assert!(str_eq("ab", "ab"));
    assert!(!str_eq("ab", "abc"));
    assert_eq!(decimal_string(0), "0");
    assert_eq!(decimal_string(1234567890), "1234567890");
}

#[test]
fn identity() {
    let i = Identity::new("zd_a".to_string(), "A".to_string());
    assert_eq!(i.device_id, "zd_a");
    assert_eq!(i.device_name, "A");
    assert_eq!(i.public_key, None);
}

#[test]
fn status_and_info() {
    assert_eq!(features(), vec!["ping", "http_transport", "ws_control", "direct_file_upload"]);
    assert_eq!(bind_addr(&config()), "0.0.0.0:8765");
    let s = stopped_status("a:1".to_string());
    assert_eq!((s.state, s.bind_addr.as_str(), s.error.clone()), (ServerState::Stopped, "a:1", None));
    assert_eq!(starting_status("a:1".to_string()).state, ServerState::Starting);
    assert_eq!(running_status("a:2".to_string()).bind_addr, "a:2");
    let f = failed_status("a:1".to_string(), "in use".to_string());
    assert_eq!((f.state, f.error.clone()), (ServerState::Failed, Some("in use".to_string())));
    let c = copy_status(&f);
    assert_eq!((c.state, c.bind_addr.as_str(), c.error), (ServerState::Failed, "a:1", Some("in use".to_string())));
    let p = ping_response(&config(), "linux");
    assert_eq!((p.device_id.as_str(), p.device_name.as_str(), p.platform.as_str(), p.protocol_version), ("zd_me", "Me", "linux", 1));
    assert_eq!(p.features.len(), 4);
    let info = local_info(&config(), "/c/config.toml", "/c/zerodrop.db", "linux", running_status("0.0.0.0:8765".to_string()));
    assert_eq!(info.config_path, "/c/config.toml");
    assert_eq!(info.database_path, "/c/zerodrop.db");
    assert_eq!(info.listen_port, 8765);
    assert_eq!(info.server_status.state, ServerState::Running);
    let e = agent_status_event(77, info);
    assert_eq!(e.timestamp, 77);
    assert_eq!(hello_from_rust("Ann".to_string()), "Hello, Ann. Rust Core is ready.");
}

#[test]
fn store_rows() {
    let s = SqliteStore::at_path("/c/zerodrop.db".to_string());
    assert_eq!(s.db_path(), "/c/zerodrop.db");
    assert_eq!(port_from_column(9000), 9000);
    assert_eq!(port_from_column(70000), 8765);
    assert_eq!(port_from_column(-1), 8765);
    assert_eq!(features_from_column(Some("[\"ping\",\"ws_control\"]".to_string())), vec!["ping", "ws_control"]);
    assert_eq!(features_from_column(Some("not json".to_string())), Vec::<String>::new());
    assert_eq!(features_from_column(None), Vec::<String>::new());
    let ping = TransportPing {
        device_id: "zd_p".to_string(),
        device_name: "P".to_string(),
        version: "0.1.0".to_string(),
        platform: "linux".to_string(),
        protocol_version: 1,
        features: vec!["ping".to_string(), "x".to_string()],
    };
    assert_eq!(features_column(&ping), Ok("[\"ping\",\"x\"]".to_string()));
    let d = device_from_row(DeviceRow {
        id: "zd_p".to_string(),
        name: "P".to_string(),
        ip: None,
        port: 100000,
        public_key: None,
        trusted: 1,
        platform: Some("linux".to_string()),
        version: None,
        protocol_version: Some(1),
        features: Some("[\"ping\"]".to_string()),
        online: 0,
        created_at: 3,
        last_seen_at: None,
        last_checked_at: Some(4),
        last_error: Some("timeout".to_string()),
    });
    assert_eq!(d.ip, "");
    assert_eq!(d.port, 8765);
    assert!(d.trusted);
    assert!(!d.online);
    assert_eq!(d.features, vec!["ping"]);
    assert_eq!(d.last_error, Some("timeout".to_string()));
}

#[test]
fn transport_urls() {
    let e = DeviceEndpoint { host: "10.0.0.3".to_string(), port: 8765 };
    assert_eq!(endpoint_url(&e, "/api/messages/init"), "http://10.0.0.3:8765/api/messages/init");
    assert_eq!(endpoint_url(&e, "api/file/upload"), "http://10.0.0.3:8765/api/file/upload");
    assert_eq!(ping_url(&e), "http://10.0.0.3:8765/api/ping");
    assert_eq!(http_status_error("http://h/x", "404 Not Found", "  "), "http://h/x returned HTTP 404 Not Found");
    assert_eq!(http_status_error("http://h/x", "400 Bad Request", "bad"), "http://h/x returned HTTP 400 Bad Request: bad");
    assert_eq!(QuicTransport.name(), "quic");
}

#[test]
fn ws_events() {
    let local = LocalWsIdentity { device_id: "zd_me".to_string(), device_name: "Me".to_string() };
    let e = WsEvent::new("hello".to_string(), &local, serde_json::Value::Null);
    assert!(e.event_id.starts_with("evt_"));
    assert_eq!(e.event_type, "hello");
    assert_eq!(e.from_device_id, "zd_me");
    assert_eq!(e.from_device_name, "Me");
    assert!(e.created_at > 0);
    assert_eq!(e.payload, serde_json::Value::Null);
    let d = device_ws_event("zd_peer", Some("Peer".to_string()), e);
    assert_eq!(d.peer_device_id, "zd_peer");
    assert_eq!(d.event.event_type, "hello");
}

#[test]
fn features_column_escapes_like_json() {
    let ping = TransportPing {
        device_id: "zd_p".to_string(),
        device_name: "P".to_string(),
        version: "0.1.0".to_string(),
        platform: "linux".to_string(),
        protocol_version: 1,
        features: vec!["a\"b\\c".to_string(), "t\tn\n\u{1}".to_string(), "é/".to_string()],
    };
    assert_eq!(
        features_column(&ping),
        Ok("[\"a\\\"b\\\\c\",\"t\\tn\\n\\u0001\",\"é/\"]".to_string())
    );
    let empty = TransportPing { features: vec![], ..ping };
    assert_eq!(features_column(&empty), Ok("[]".to_string()));
}

#[test]
fn cloned_store_keeps_its_path() {
    let s = SqliteStore::at_path("/tmp/zd/zerodrop.db".to_string());
    let t = s.clone();
    assert_eq!(t.db_path(), "/tmp/zd/zerodrop.db");
    assert_eq!(s.db_path(), t.db_path());
}
