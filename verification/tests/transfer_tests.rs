use zerodrop::device::Device;
use zerodrop::transfer::{
    after_name_probe, check_outbound_file, check_read_size, check_upload_header,
    clean_file_name, download_candidate, file_upload_path, mark_received, new_inbound_transfer,
    new_outbound_transfer, no_free_name_error, outbound_file_name, safe_file_name,
    safe_name_from_component, sanitize_inbound_filename, upload_query, validate_upload_query,
    FileUploadQuery, NameProbe, MAX_DIRECT_FILE_BYTES,
};

fn peer() -> Device {
    Device {
        id: "zd_peer".to_string(),
        name: "Peer Box".to_string(),
        ip: "10.147.17.2".to_string(),
        port: 8765,
        public_key: None,
        trusted: true,
        platform: None,
        version: None,
        protocol_version: None,
        features: vec![],
        online: true,
        created_at: 1,
        last_seen_at: None,
        last_checked_at: None,
        last_error: None,
    }
}

fn query(size: i64) -> FileUploadQuery {
    FileUploadQuery {
        transfer_id: "tr_1".to_string(),
        from_device_id: "zd_peer".to_string(),
        from_device_name: "Peer Box".to_string(),
        to_device_id: "zd_local".to_string(),
        filename: "report.pdf".to_string(),
        size,
        created_at: 5,
    }
}

#[test]
fn inbound_names_are_sanitized() {
    assert_eq!(sanitize_inbound_filename("report.pdf"), Ok("report.pdf".to_string()));
    assert_eq!(sanitize_inbound_filename("some/dir/ a.txt "), Ok("a.txt".to_string()));
    assert_eq!(sanitize_inbound_filename(".."), Err("文件名无效".to_string()));
    assert_eq!(sanitize_inbound_filename("   "), Err("文件名无效".to_string()));
    assert_eq!(sanitize_inbound_filename(""), Err("文件名无效".to_string()));
    assert_eq!(sanitize_inbound_filename("a\\b.txt"), Err("文件名不能包含路径".to_string()));
}

#[test]
fn clean_file_name_cases() {
    assert_eq!(clean_file_name(None), Err("文件名无效".to_string()));
    assert_eq!(clean_file_name(Some(" . ".to_string())), Err("文件名无效".to_string()));
    assert_eq!(clean_file_name(Some("x/y".to_string())), Err("文件名不能包含路径".to_string()));
    assert_eq!(clean_file_name(Some(" ok.txt\t".to_string())), Ok("ok.txt".to_string()));
}

#[test]
fn outbound_names() {
    assert_eq!(safe_file_name("/tmp/photos/cat.png"), Some("cat.png".to_string()));
    assert_eq!(safe_file_name("/tmp/.."), None);
    assert_eq!(safe_file_name("/"), None);
    assert_eq!(safe_name_from_component(Some("  ".to_string())), None);
    assert_eq!(safe_name_from_component(Some(" a ".to_string())), Some("a".to_string()));
    assert_eq!(outbound_file_name("/tmp/a.txt"), Ok("a.txt".to_string()));
    assert_eq!(outbound_file_name("/"), Err("无法识别文件名".to_string()));
}

#[test]
fn download_candidates() {
    assert_eq!(download_candidate("a.txt", 0), "a.txt");
    assert_eq!(download_candidate("a.txt", 3), "a (3).txt");
    assert_eq!(download_candidate("archive.tar.gz", 1), "archive.tar (1).gz");
    assert_eq!(download_candidate(".bashrc", 2), ".bashrc (2)");
    assert_eq!(download_candidate("foo.", 1), "foo (1)");
    assert_eq!(download_candidate("README", 9999), "README (9999)");
}

#[test]
fn name_probing() {
    assert_eq!(after_name_probe(0, false), NameProbe::Use);
    assert_eq!(after_name_probe(0, true), NameProbe::Next(1));
    assert_eq!(after_name_probe(9998, true), NameProbe::Next(9999));
    assert_eq!(after_name_probe(9999, true), NameProbe::GiveUp);
    assert_eq!(no_free_name_error(), "无法为接收文件生成不重名路径");
}

#[test]
fn outbound_file_checks() {
    assert_eq!(check_outbound_file(true, 10), Ok(()));
    assert_eq!(
        check_outbound_file(false, 10),
        Err("Phase 5 仅支持拖拽单个普通文件".to_string())
    );
    assert_eq!(check_outbound_file(true, 0), Err("不能发送空文件".to_string()));
    assert_eq!(
        check_outbound_file(true, MAX_DIRECT_FILE_BYTES + 1),
        Err("文件超过 100MB，请等待 Phase 6 分片传输".to_string())
    );
    assert_eq!(check_outbound_file(true, MAX_DIRECT_FILE_BYTES), Ok(()));
}

#[test]
fn outbound_transfer_and_query() {
    let t = new_outbound_transfer(
        "tr_9".to_string(),
        &peer(),
        "cat.png".to_string(),
        1234,
        "/tmp/cat.png".to_string(),
        77,
    );
    assert_eq!(t.id, "tr_9");
    assert_eq!(t.peer_device_id, "zd_peer");
    assert_eq!(t.peer_device_name, Some("Peer Box".to_string()));
    assert_eq!(t.direction, "outbound");
    assert_eq!(t.filename, "cat.png");
    assert_eq!(t.size, 1234);
    assert_eq!(t.status, "sending");
    assert_eq!(t.local_path, Some("/tmp/cat.png".to_string()));
    assert_eq!((t.created_at, t.updated_at, t.error.clone()), (77, 77, None));
    assert_eq!(check_read_size(1234, &t), Ok(()));
    assert_eq!(check_read_size(1233, &t), Err("发送前文件大小发生变化".to_string()));
    let q = upload_query(&t, "zd_local", "Local", "zd_peer");
    assert_eq!(q.transfer_id, "tr_9");
    assert_eq!(q.from_device_id, "zd_local");
    assert_eq!(q.from_device_name, "Local");
    assert_eq!(q.to_device_id, "zd_peer");
    assert_eq!(q.filename, "cat.png");
    assert_eq!((q.size, q.created_at), (1234, 77));
    assert_eq!(validate_upload_query(&q, 1234, "zd_peer"), Ok(()));
    assert_eq!(file_upload_path(), "/api/file/upload");
}

#[test]
fn upload_checks_in_order() {
    assert_eq!(check_upload_header(&query(3), 3, "zd_local"), Ok(()));
    let mut q = query(3);
    q.transfer_id = " ".to_string();
    assert_eq!(check_upload_header(&q, 3, "zd_local"), Err("transferId 不能为空".to_string()));
    let mut q = query(3);
    q.from_device_id = "".to_string();
    assert_eq!(check_upload_header(&q, 3, "zd_local"), Err("fromDeviceId 不能为空".to_string()));
    assert_eq!(
        check_upload_header(&query(3), 3, "zd_x"),
        Err("文件目标设备不是本机".to_string())
    );
    assert_eq!(check_upload_header(&query(0), 0, "zd_local"), Err("文件内容不能为空".to_string()));
    assert_eq!(
        check_upload_header(&query(100 * 1024 * 1024 + 1), 1, "zd_local"),
        Err("文件超过 100MB，请等待 Phase 6 分片传输".to_string())
    );
    assert_eq!(check_upload_header(&query(3), 4, "zd_local"), Err("文件大小与声明不一致".to_string()));
    let mut q = query(3);
    q.filename = "x\\y".to_string();
    assert_eq!(validate_upload_query(&q, 3, "zd_local"), Err("文件名不能包含路径".to_string()));
    let mut q = query(3);
    q.filename = "..".to_string();
    assert_eq!(validate_upload_query(&q, 3, "zd_local"), Err("文件名无效".to_string()));
}

#[test]
fn inbound_transfer_record() {
    let t = new_inbound_transfer(query(3), "Stored".to_string(), "report.pdf".to_string(), "/dl/report.pdf".to_string(), 9);
    assert_eq!(t.id, "tr_1");
    assert_eq!(t.peer_device_id, "zd_peer");
    assert_eq!(t.peer_device_name, Some("Peer Box".to_string()));
    assert_eq!(t.direction, "inbound");
    assert_eq!(t.status, "receiving");
    assert_eq!(t.local_path, Some("/dl/report.pdf".to_string()));
    assert_eq!((t.size, t.created_at, t.updated_at), (3, 5, 9));
    let mut q = query(3);
    q.from_device_name = "  ".to_string();
    let t2 = new_inbound_transfer(q, "Stored".to_string(), "r.pdf".to_string(), "/dl/r.pdf".to_string(), 9);
    assert_eq!(t2.peer_device_name, Some("Stored".to_string()));
    let r = mark_received(t, 11);
    assert_eq!(r.status, "received");
    assert_eq!(r.updated_at, 11);
    assert_eq!(r.id, "tr_1");
    assert_eq!(r.created_at, 5);
}

#[test]
fn parent_path_in_inbound_name_is_dropped() {
    assert_eq!(sanitize_inbound_filename("../evil.txt"), Ok("evil.txt".to_string()));
    assert_eq!(sanitize_inbound_filename("/etc/ passwd"), Ok("passwd".to_string()));
    assert_eq!(sanitize_inbound_filename("dir/.."), Err("文件名无效".to_string()));
    let again = sanitize_inbound_filename("evil.txt");
    assert_eq!(again, Ok("evil.txt".to_string()));
}

#[test]
fn upload_with_refused_name_is_refused() {
    let mut q = query(3);
    q.filename = "../..".to_string();
    assert_eq!(validate_upload_query(&q, 3, "zd_local"), Err("文件名无效".to_string()));
    q.filename = "../evil.txt".to_string();
    assert_eq!(validate_upload_query(&q, 3, "zd_local"), Ok(()));
    q.to_device_id = "zd_other".to_string();
    assert_eq!(validate_upload_query(&q, 3, "zd_local"), Err("文件目标设备不是本机".to_string()));
}

#[test]
fn outbound_name_is_last_part_trimmed() {
    assert_eq!(outbound_file_name("dir/b.txt"), Ok("b.txt".to_string()));
    assert_eq!(outbound_file_name("dir/ b.txt "), Ok("b.txt".to_string()));
    assert_eq!(outbound_file_name(""), Err("无法识别文件名".to_string()));
    assert_eq!(outbound_file_name("dir/.."), Err("无法识别文件名".to_string()));
    assert_eq!(outbound_file_name("dir/ "), Err("无法识别文件名".to_string()));
}
