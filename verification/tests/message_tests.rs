use zerodrop::chunking::{assemble_inbound_content, outbound_chunk};
use zerodrop::device::Device;
use zerodrop::message::{
    byte_len, check_chunk_acceptable, check_chunk_size, check_complete_sender,
    check_complete_target, check_completable, check_retryable, chunk_response,
    completed_inbound_message, message_complete_request, message_init_request,
    new_inbound_message, new_outbound_message,
    total_chunks, validate_content, validate_inbound_request, ChatMessage, MessageInitRequest,
    MAX_TEXT_BYTES, TEXT_CHUNK_BYTES,
};
use zerodrop::outbound::{
    failure_update, message_chunk_path, message_complete_path, message_init_path,
    next_outbound_step, outbound_chunk_count, progress_update, resend_update, sent_update,
    OutboundStep,
};

fn peer() -> Device {
    Device {
        id: "zd_peer".to_string(),
        name: "Peer Box".to_string(),
        ip: "10.147.17.2".to_string(),
        port: 8765,
        public_key: None,
        trusted: true,
        platform: Some("linux".to_string()),
        version: Some("0.1.0".to_string()),
        protocol_version: Some(1),
        features: vec!["ping".to_string()],
        online: true,
        created_at: 1,
        last_seen_at: Some(2),
        last_checked_at: Some(3),
        last_error: None,
    }
}

fn init_request(size: i64) -> MessageInitRequest {
    MessageInitRequest {
        message_id: "msg_1".to_string(),
        from_device_id: "zd_peer".to_string(),
        from_device_name: "Peer Box".to_string(),
        to_device_id: "zd_local".to_string(),
        content_size: size,
        chunk_size: 262144,
        total_chunks: (size + 262143) / 262144,
        created_at: 100,
    }
}

fn inbound(total: i64) -> ChatMessage {
    let mut req = init_request(total * 262144);
    req.total_chunks = total;
    new_inbound_message(req, "Peer Box".to_string(), 200)
}

#[test]
fn content_limits() {
    assert_eq!(validate_content(""), Err("消息内容不能为空".to_string()));
    assert_eq!(validate_content("hi"), Ok(()));
    let big = "a".repeat(MAX_TEXT_BYTES + 1);
    assert_eq!(validate_content(&big), Err("消息超过 10MB 上限".to_string()));
    let max = "a".repeat(MAX_TEXT_BYTES);
    assert_eq!(validate_content(&max), Ok(()));
}

#[test]
fn byte_len_counts_utf8_bytes() {
    assert_eq!(byte_len("héllo"), 6);
    assert_eq!(byte_len("你好"), 6);
    assert_eq!(byte_len(""), 0);
}

#[test]
fn chunk_count_rounds_up() {
    assert_eq!(total_chunks(0), 0);
    assert_eq!(total_chunks(1), 1);
    assert_eq!(total_chunks(TEXT_CHUNK_BYTES), 1);
    assert_eq!(total_chunks(TEXT_CHUNK_BYTES + 1), 2);
    assert_eq!(total_chunks(MAX_TEXT_BYTES), 40);
}

#[test]
fn inbound_request_checks_in_order() {
    assert_eq!(validate_inbound_request(&init_request(10), "zd_local"), Ok(()));
    assert_eq!(
        validate_inbound_request(&init_request(10), "zd_other"),
        Err("消息目标设备不是本机".to_string())
    );
    let mut r = init_request(10);
    r.message_id = "  ".to_string();
    assert_eq!(validate_inbound_request(&r, "zd_local"), Err("messageId 不能为空".to_string()));
    let mut r = init_request(10);
    r.from_device_id = "".to_string();
    assert_eq!(
        validate_inbound_request(&r, "zd_local"),
        Err("fromDeviceId 不能为空".to_string())
    );
    let r = init_request(0);
    assert_eq!(validate_inbound_request(&r, "zd_local"), Err("消息内容不能为空".to_string()));
    let r = init_request(10 * 1024 * 1024 + 1);
    assert_eq!(validate_inbound_request(&r, "zd_local"), Err("消息超过 10MB 上限".to_string()));
    let mut r = init_request(10);
    r.chunk_size = 1024;
    assert_eq!(validate_inbound_request(&r, "zd_local"), Err("消息分片大小不匹配".to_string()));
    let mut r = init_request(300000);
    r.total_chunks = 1;
    assert_eq!(validate_inbound_request(&r, "zd_local"), Err("消息分片数量不正确".to_string()));
    assert_eq!(validate_inbound_request(&init_request(300000), "zd_local"), Ok(()));
}

#[test]
fn outbound_message_record() {
    let m = new_outbound_message("msg_a".to_string(), &peer(), "你好 world", 42);
    assert_eq!(m.id, "msg_a");
    assert_eq!(m.peer_device_id, "zd_peer");
    assert_eq!(m.peer_device_name, Some("Peer Box".to_string()));
    assert_eq!(m.direction, "outbound");
    assert_eq!(m.content, "你好 world");
    assert_eq!(m.status, "sending");
    assert_eq!(m.content_size, 12);
    assert_eq!(m.chunk_size, 262144);
    assert_eq!(m.total_chunks, 1);
    assert_eq!(m.chunks_done, 0);
    assert_eq!(m.created_at, 42);
    assert_eq!(m.updated_at, 42);
    assert_eq!(m.error, None);
}

#[test]
fn sender_announcement_is_accepted_by_receiver() {
    let m = new_outbound_message("msg_a".to_string(), &peer(), "hello", 7);
    let req = message_init_request(&m, "zd_local", "Local", "zd_peer");
    assert_eq!(req.message_id, "msg_a");
    assert_eq!(req.from_device_id, "zd_local");
    assert_eq!(req.from_device_name, "Local");
    assert_eq!(req.to_device_id, "zd_peer");
    assert_eq!(req.content_size, 5);
    assert_eq!(req.total_chunks, 1);
    assert_eq!(req.created_at, 7);
    assert_eq!(validate_inbound_request(&req, "zd_peer"), Ok(()));
}

#[test]
fn chunks_rejoin_to_the_text() {
    let text: String = "ab你好".repeat(75000);
    let n = byte_len(&text);
    assert_eq!(n, 600000);
    let count = total_chunks(n);
    assert_eq!(count, 3);
    let chunks: Vec<Vec<u8>> = (0..count).map(|i| outbound_chunk(&text, i)).collect();
    assert_eq!(chunks[0].len(), TEXT_CHUNK_BYTES);
    assert_eq!(chunks[1].len(), TEXT_CHUNK_BYTES);
    assert_eq!(chunks[2].len(), 600000 - 2 * TEXT_CHUNK_BYTES);
    assert_eq!(assemble_inbound_content(600000, &chunks), Ok(text));
}

#[test]
fn assembly_refusals() {
    let chunks = vec![b"abc".to_vec(), b"de".to_vec()];
    assert_eq!(assemble_inbound_content(5, &chunks), Ok("abcde".to_string()));
    assert_eq!(
        assemble_inbound_content(6, &chunks),
        Err("消息合并后大小不匹配".to_string())
    );
    let bad = vec![vec![0xe4, 0xbd], vec![0x41]];
    assert_eq!(
        assemble_inbound_content(3, &bad),
        Err("消息内容不是有效 UTF-8".to_string())
    );
    let split = vec![vec![0xe4, 0xbd], vec![0xa0]];
    assert_eq!(assemble_inbound_content(3, &split), Ok("你".to_string()));
}

#[test]
fn inbound_record_and_chunk_checks() {
    let m = inbound(3);
    assert_eq!(m.id, "msg_1");
    assert_eq!(m.peer_device_id, "zd_peer");
    assert_eq!(m.peer_device_name, Some("Peer Box".to_string()));
    assert_eq!(m.direction, "inbound");
    assert_eq!(m.content, "");
    assert_eq!(m.status, "receiving");
    assert_eq!(m.created_at, 100);
    assert_eq!(m.updated_at, 200);
    assert_eq!(check_chunk_acceptable(&m, 0), Ok(()));
    assert_eq!(check_chunk_acceptable(&m, 2), Ok(()));
    assert_eq!(check_chunk_acceptable(&m, 3), Err("消息分片序号越界".to_string()));
    assert_eq!(check_chunk_acceptable(&m, -1), Err("消息分片序号越界".to_string()));
    let mut done = m.clone();
    done.status = "received".to_string();
    assert_eq!(
        check_chunk_acceptable(&done, 0),
        Err("消息当前状态不允许接收分片".to_string())
    );
    assert_eq!(check_completable(&m, 3), Ok(()));
    assert_eq!(check_completable(&m, 2), Err("消息分片不完整".to_string()));
    assert_eq!(check_completable(&done, 3), Err("消息当前状态不允许完成".to_string()));
}

#[test]
fn chunk_size_and_response() {
    assert_eq!(check_chunk_size(TEXT_CHUNK_BYTES), Ok(()));
    assert_eq!(check_chunk_size(TEXT_CHUNK_BYTES + 1), Err("消息分片超过 256KB".to_string()));
    let mut m = inbound(3);
    m.chunks_done = 2;
    let r = chunk_response(&m, 1);
    assert!(r.ok);
    assert_eq!(r.message_id, "msg_1");
    assert_eq!(r.chunk_index, 1);
    assert_eq!(r.chunks_done, 2);
    assert_eq!(r.total_chunks, 3);
}

#[test]
fn completion_request_checks() {
    let req = message_complete_request("zd_peer", "zd_local");
    assert_eq!(req.from_device_id, "zd_peer");
    assert_eq!(req.to_device_id, "zd_local");
    assert_eq!(check_complete_target(&req, "zd_local"), Ok(()));
    assert_eq!(check_complete_target(&req, "zd_x"), Err("消息目标设备不是本机".to_string()));
    let m = inbound(1);
    assert_eq!(check_complete_sender(&m, &req), Ok(()));
    let other = message_complete_request("zd_mallory", "zd_local");
    assert_eq!(
        check_complete_sender(&m, &other),
        Err("消息发送方与初始化记录不一致".to_string())
    );
}

#[test]
fn retry_checks() {
    let m = new_outbound_message("msg_a".to_string(), &peer(), "hello", 7);
    assert_eq!(check_retryable(&m), Ok(()));
    let mut empty = m.clone();
    empty.content = String::new();
    assert_eq!(check_retryable(&empty), Err("消息内容不能为空".to_string()));
    let i = inbound(1);
    assert_eq!(check_retryable(&i), Err("只能重试发送失败的发出消息".to_string()));
}

#[test]
fn outbound_steps_follow_the_schedule() {
    let mut step = OutboundStep::PostInit;
    let mut seen = vec![step];
    while step != OutboundStep::Finished {
        step = next_outbound_step(step, 2);
        seen.push(step);
    }
    assert_eq!(
        seen,
        vec![
            OutboundStep::PostInit,
            OutboundStep::PutChunk(0),
            OutboundStep::SaveProgress(0),
            OutboundStep::PutChunk(1),
            OutboundStep::SaveProgress(1),
            OutboundStep::PostComplete,
            OutboundStep::SaveSent,
            OutboundStep::Finished,
        ]
    );
    assert_eq!(next_outbound_step(OutboundStep::PostInit, 0), OutboundStep::PostComplete);
}

#[test]
fn outbound_paths_and_updates() {
    assert_eq!(message_init_path(), "/api/messages/init");
    assert_eq!(message_chunk_path("msg_x", 12), "/api/messages/msg_x/chunks/12");
    assert_eq!(message_chunk_path("msg_x", 0), "/api/messages/msg_x/chunks/0");
    assert_eq!(message_complete_path("msg_x"), "/api/messages/msg_x/complete");
    let p = progress_update(4);
    assert_eq!((p.status.as_str(), p.chunks_done, p.error), ("sending", 5, None));
    let mut m = new_outbound_message("msg_a".to_string(), &peer(), "hello", 7);
    m.chunks_done = 0;
    let s = sent_update(&m);
    assert_eq!((s.status.as_str(), s.chunks_done), ("sent", 1));
    let f = failure_update(&m, "boom".to_string());
    assert_eq!((f.status.as_str(), f.chunks_done, f.error), ("failed", 0, Some("boom".to_string())));
    let r = resend_update();
    assert_eq!((r.status.as_str(), r.chunks_done, r.error), ("sending", 0, None));
    assert_eq!(outbound_chunk_count(&m), 1);
}

#[test]
fn completed_message_is_received_with_its_text() {
    let m = inbound(2);
    let done = completed_inbound_message(m.clone(), "hello".to_string(), 900);
    assert_eq!(done.content, "hello");
    assert_eq!(done.status, "received");
    assert_eq!(done.chunks_done, 2);
    assert_eq!(done.updated_at, 900);
    assert_eq!(done.error, None);
    assert_eq!(done.id, m.id);
    assert_eq!(done.created_at, m.created_at);
    assert_eq!(done.direction, "inbound");
}
