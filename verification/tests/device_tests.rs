use zerodrop::device::{
    device_endpoint, endpoint_from_url, find_trusted_device, parse_endpoint, Device, UrlParts,
    DEFAULT_AGENT_PORT,
};

fn device(id: &str, trusted: bool, name: &str) -> Device {
    Device {
        id: id.to_string(),
        name: name.to_string(),
        ip: "10.0.0.9".to_string(),
        port: 9000,
        public_key: None,
        trusted,
        platform: None,
        version: None,
        protocol_version: None,
        features: vec![],
        online: false,
        created_at: 0,
        last_seen_at: None,
        last_checked_at: None,
        last_error: None,
    }
}

#[test]
fn parse_endpoint_with_port() {
    let e = parse_endpoint("10.147.17.2:9000").unwrap();
    assert_eq!(e.host, "10.147.17.2");
    assert_eq!(e.port, 9000);
}

#[test]
fn parse_endpoint_default_port_and_trim() {
    let e = parse_endpoint("  10.147.17.2  ").unwrap();
    assert_eq!(e.host, "10.147.17.2");
    assert_eq!(e.port, DEFAULT_AGENT_PORT);
    let e = parse_endpoint("http://peer.local:8123/").unwrap();
    assert_eq!(e.host, "peer.local");
    assert_eq!(e.port, 8123);
}

#[test]
fn parse_endpoint_refusals() {
    assert_eq!(
        parse_endpoint("   ").unwrap_err(),
        "请输入设备地址，例如 PEER_ZEROTIER_IP:8765"
    );
    assert_eq!(parse_endpoint("https://10.0.0.1").unwrap_err(), "Phase 2 仅支持 HTTP 地址");
    assert_eq!(parse_endpoint("http://").unwrap_err(), "设备地址格式不正确，请使用 ip:port");
    assert_eq!(parse_endpoint("10.0.0.1:99999").unwrap_err(), "设备地址格式不正确，请使用 ip:port");
}

#[test]
fn endpoint_from_url_parts() {
    assert_eq!(endpoint_from_url(None).unwrap_err(), "设备地址格式不正确，请使用 ip:port");
    let no_host = UrlParts { scheme: "http".to_string(), host: None, port: None };
    assert_eq!(endpoint_from_url(Some(no_host)).unwrap_err(), "设备地址缺少 IP 或主机名");
    let ftp = UrlParts { scheme: "ftp".to_string(), host: Some("h".to_string()), port: None };
    assert_eq!(endpoint_from_url(Some(ftp)).unwrap_err(), "Phase 2 仅支持 HTTP 地址");
    let ok = UrlParts { scheme: "http".to_string(), host: Some("h".to_string()), port: None };
    let e = endpoint_from_url(Some(ok)).unwrap();
    assert_eq!((e.host.as_str(), e.port), ("h", 8765));
}

#[test]
fn endpoint_of_device() {
    let e = device_endpoint(&device("zd_a", true, "A"));
    assert_eq!((e.host.as_str(), e.port), ("10.0.0.9", 9000));
}

#[test]
fn trusted_device_lookup() {
    let list = vec![
        device("zd_a", false, "first"),
        device("zd_b", true, "b"),
        device("zd_a", true, "second"),
        device("zd_a", true, "third"),
    ];
    let found = find_trusted_device(list.clone(), "zd_a").unwrap();
    assert_eq!(found.name, "second");
    assert!(find_trusted_device(list.clone(), "zd_c").is_none());
    assert!(find_trusted_device(vec![device("zd_x", false, "x")], "zd_x").is_none());
}
