use zerodrop::config::{
    default_config, default_device_name, fallback_device_name, normalize_config, AppConfig,
};

fn config() -> AppConfig {
    AppConfig {
        device_id: "zd_abc".to_string(),
        device_name: "Desk".to_string(),
        listen_host: "127.0.0.1".to_string(),
        listen_port: 9000,
        download_dir: "/dl".to_string(),
        protocol_version: 2,
        version: "0.0.1".to_string(),
    }
}

#[test]
fn env_device_name() {
    assert_eq!(default_device_name(Some(" PC ".to_string()), Some("host".to_string())), Some("PC".to_string()));
    assert_eq!(default_device_name(None, Some("host".to_string())), Some("host".to_string()));
    assert_eq!(default_device_name(Some("  ".to_string()), Some("host".to_string())), None);
    assert_eq!(default_device_name(None, None), None);
}

#[test]
fn generated_names() {
    assert_eq!(fallback_device_name("zd_0123456789abcdef"), "ZeroDrop-012345");
    assert_eq!(fallback_device_name("zd_ab"), "ZeroDrop-ab");
    assert_eq!(fallback_device_name("custom-id-1"), "ZeroDrop-custom");
}

#[test]
fn defaults() {
    let c = default_config(None, "/home/u/Downloads/ZeroDrop".to_string(), "0.1.0".to_string());
    assert!(c.device_id.starts_with("zd_"));
    assert_eq!(c.device_id.len(), 35);
    assert_eq!(c.device_name, format!("ZeroDrop-{}", &c.device_id[3..9]));
    assert_eq!(c.listen_host, "0.0.0.0");
    assert_eq!(c.listen_port, 8765);
    assert_eq!(c.download_dir, "/home/u/Downloads/ZeroDrop");
    assert_eq!(c.protocol_version, 1);
    assert_eq!(c.version, "0.1.0");
    let named = default_config(Some("Desk".to_string()), "/d".to_string(), "0.1.0".to_string());
    assert_eq!(named.device_name, "Desk");
}

#[test]
fn normalize_fills_blanks_only() {
    let mut c = config();
    normalize_config(&mut c, Some("Env".to_string()), "/other".to_string(), "0.2.0".to_string());
    assert_eq!(c.device_id, "zd_abc");
    assert_eq!(c.device_name, "Desk");
    assert_eq!(c.listen_host, "127.0.0.1");
    assert_eq!(c.listen_port, 9000);
    assert_eq!(c.download_dir, "/dl");
    assert_eq!(c.protocol_version, 2);
    assert_eq!(c.version, "0.2.0");

    let mut blank = AppConfig {
        device_id: " ".to_string(),
        device_name: "".to_string(),
        listen_host: "\t".to_string(),
        listen_port: 0,
        download_dir: "".to_string(),
        protocol_version: 0,
        version: "".to_string(),
    };
    normalize_config(&mut blank, None, "/dl2".to_string(), "0.2.0".to_string());
    assert!(blank.device_id.starts_with("zd_"));
    assert_eq!(blank.device_id.len(), 35);
    assert_eq!(blank.device_name, "ZeroDrop");
    assert_eq!(blank.listen_host, "0.0.0.0");
    assert_eq!(blank.listen_port, 8765);
    assert_eq!(blank.download_dir, "/dl2");
    assert_eq!(blank.protocol_version, 1);
    assert_eq!(blank.version, "0.2.0");
    let before = blank.clone();
    normalize_config(&mut blank, Some("Env".to_string()), "/x".to_string(), "0.2.0".to_string());
    assert_eq!(blank.device_id, before.device_id);
    assert_eq!(blank.device_name, before.device_name);
    assert_eq!(blank.download_dir, before.download_dir);
}
