//! Text messages: their records, the checks on both ends of a transfer, and how the
//! content is cut into chunks and put back together.
use vstd::prelude::*;

use crate::device::Device;
use crate::numeric::{saturating_i64, usize_to_i64_saturating};
use crate::text::{is_blank, is_blank_str, str_eq};

verus! {

broadcast use vstd::string::group_string_axioms;

/// Largest text message, in bytes of UTF-8.
pub const MAX_TEXT_BYTES: usize = 10 * 1024 * 1024;

/// Size of every chunk but the last, in bytes.
pub const TEXT_CHUNK_BYTES: usize = 256 * 1024;

/// A chat message, sent or received.
#[derive(Clone, Debug)]
pub struct ChatMessage {
    pub id: String,
    pub peer_device_id: String,
    pub peer_device_name: Option<String>,
    pub direction: String,
    pub content: String,
    pub status: String,
    pub content_size: i64,
    pub chunk_size: i64,
    pub total_chunks: i64,
    pub chunks_done: i64,
    pub created_at: i64,
    pub updated_at: i64,
    pub error: Option<String>,
}

/// The mathematical value of a [`ChatMessage`].
pub ghost struct ChatMessageView {
    pub id: Seq<char>,
    pub peer_device_id: Seq<char>,
    pub peer_device_name: Option<Seq<char>>,
    pub direction: Seq<char>,
    pub content: Seq<char>,
    pub status: Seq<char>,
    pub content_size: i64,
    pub chunk_size: i64,
    pub total_chunks: i64,
    pub chunks_done: i64,
    pub created_at: i64,
    pub updated_at: i64,
    pub error: Option<Seq<char>>,
}

impl View for ChatMessage {
    type V = ChatMessageView;

    open spec fn view(&self) -> ChatMessageView {
        ChatMessageView {
            id: self.id@,
            peer_device_id: self.peer_device_id@,
            peer_device_name: self.peer_device_name.deep_view(),
            direction: self.direction@,
            content: self.content@,
            status: self.status@,
            content_size: self.content_size,
            chunk_size: self.chunk_size,
            total_chunks: self.total_chunks,
            chunks_done: self.chunks_done,
            created_at: self.created_at,
            updated_at: self.updated_at,
            error: self.error.deep_view(),
        }
    }
}

/// What the sender announces before the chunks of a message.
#[derive(Clone, Debug)]
pub struct MessageInitRequest {
    pub message_id: String,
    pub from_device_id: String,
    pub from_device_name: String,
    pub to_device_id: String,
    pub content_size: i64,
    pub chunk_size: i64,
    pub total_chunks: i64,
    pub created_at: i64,
}

/// The mathematical value of a [`MessageInitRequest`].
pub ghost struct MessageInitRequestView {
    pub message_id: Seq<char>,
    pub from_device_id: Seq<char>,
    pub from_device_name: Seq<char>,
    pub to_device_id: Seq<char>,
    pub content_size: i64,
    pub chunk_size: i64,
    pub total_chunks: i64,
    pub created_at: i64,
}

impl View for MessageInitRequest {
    type V = MessageInitRequestView;

    open spec fn view(&self) -> MessageInitRequestView {
        MessageInitRequestView {
            message_id: self.message_id@,
            from_device_id: self.from_device_id@,
            from_device_name: self.from_device_name@,
            to_device_id: self.to_device_id@,
            content_size: self.content_size,
            chunk_size: self.chunk_size,
            total_chunks: self.total_chunks,
            created_at: self.created_at,
        }
    }
}

/// The receiver's answer to a [`MessageInitRequest`].
#[derive(Clone, Debug)]
pub struct MessageInitResponse {
    pub accepted: bool,
}

/// The receiver's answer to one chunk.
#[derive(Clone, Debug)]
pub struct MessageChunkResponse {
    pub ok: bool,
    pub message_id: String,
    pub chunk_index: i64,
    pub chunks_done: i64,
    pub total_chunks: i64,
}

/// What the sender sends once every chunk went through.
#[derive(Clone, Debug)]
pub struct MessageCompleteRequest {
    pub from_device_id: String,
    pub to_device_id: String,
}

/// The receiver's answer to a [`MessageCompleteRequest`].
#[derive(Clone, Debug)]
pub struct MessageCompleteResponse {
    pub ok: bool,
    pub message: ChatMessage,
}

/// Event raised when a message has been received in full.
#[derive(Clone, Debug)]
pub struct MessageReceivedEvent {
    pub message: ChatMessage,
}

/// Event raised when the status of a message changes.
#[derive(Clone, Debug)]
pub struct MessageStatusChangedEvent {
    pub message: ChatMessage,
}

/// The number of chunks a content of `n` bytes is cut into: `n` divided by the chunk
/// size, rounded up.
pub open spec fn chunk_count(n: int) -> int {
    if n <= 0 {
        0
    } else {
        (n + TEXT_CHUNK_BYTES - 1) / (TEXT_CHUNK_BYTES as int)
    }
}

/// The UTF-8 bytes of a text.
pub open spec fn utf8_bytes(s: Seq<char>) -> Seq<u8> {
    vstd::utf8::encode_utf8(s)
}

/// Number of UTF-8 bytes of `content`.
pub fn byte_len(content: &str) -> (n: usize)
    ensures
        n == utf8_bytes(content@).len(),
{
    content.as_bytes().len()
}

/// Number of chunks for a content of `content_size` bytes.
pub fn total_chunks(content_size: usize) -> (n: usize)
    ensures
        n == chunk_count(content_size as int),
        n as int * TEXT_CHUNK_BYTES >= content_size,
        content_size > 0 ==> (n as int - 1) * TEXT_CHUNK_BYTES < content_size,
{
    let q = content_size / TEXT_CHUNK_BYTES;
    if content_size % TEXT_CHUNK_BYTES == 0 {
        q
    } else {
        q + 1
    }
}

/// The reason `validate_content` refuses a text of `n` bytes, if any.
pub open spec fn content_error(n: int) -> Option<Seq<char>> {
    if n == 0 {
        Some("消息内容不能为空"@)
    } else if n > MAX_TEXT_BYTES {
        Some("消息超过 10MB 上限"@)
    } else {
        None
    }
}

/// A text of `n` bytes is refused as empty exactly when it has no bytes, refused as too
/// large exactly when it has more than `MAX_TEXT_BYTES`, and accepted at every size in
/// between, one byte included.
pub proof fn lemma_content_sizes(n: int)
    requires
        n >= 0,
    ensures
        content_error(n) is None <==> 1 <= n <= MAX_TEXT_BYTES,
        content_error(n) == Some("消息内容不能为空"@) <==> n == 0,
        content_error(n) == Some("消息超过 10MB 上限"@) <==> n > MAX_TEXT_BYTES,
{
    reveal_strlit("消息内容不能为空");
    reveal_strlit("消息超过 10MB 上限");
    assert("消息内容不能为空"@ != "消息超过 10MB 上限"@) by {
        assert("消息内容不能为空"@.len() != "消息超过 10MB 上限"@.len());
    }
}

proof fn lemma_utf8_at_least_one_byte_per_char(s: Seq<char>)
    ensures
        utf8_bytes(s).len() >= s.len(),
    decreases s.len(),
{
    if s.len() > 0 {
        lemma_utf8_at_least_one_byte_per_char(s.drop_first());
    }
}

/// A text is refused as empty exactly when it has no characters: any text of one or
/// more characters within the size limit is accepted.
pub proof fn lemma_nonempty_text_is_not_refused_as_empty(s: Seq<char>)
    ensures
        content_error(utf8_bytes(s).len() as int) == Some("消息内容不能为空"@) <==> s.len() == 0,
        s.len() > 0 && utf8_bytes(s).len() <= MAX_TEXT_BYTES ==> content_error(
            utf8_bytes(s).len() as int,
        ) is None,
{
    lemma_utf8_at_least_one_byte_per_char(s);
    lemma_content_sizes(utf8_bytes(s).len() as int);
    if s.len() == 0 {
        assert(utf8_bytes(s) =~= Seq::<u8>::empty());
    }
}

/// Checks that a text to send is neither empty nor over the size limit.
pub fn validate_content(content: &str) -> (r: Result<(), String>)
    ensures
        r is Ok <==> content_error(utf8_bytes(content@).len() as int) is None,
        r matches Err(e) ==> content_error(utf8_bytes(content@).len() as int) == Some(e@),
{
    let bytes = byte_len(content);
    if bytes == 0 {
        return Err("消息内容不能为空".to_owned());
    }
    if bytes > MAX_TEXT_BYTES {
        return Err("消息超过 10MB 上限".to_owned());
    }
    Ok(())
}

/// The reason the receiver refuses an announced message, checked in this order.
pub open spec fn init_request_error(req: MessageInitRequestView, local_device_id: Seq<char>) -> Option<
    Seq<char>,
> {
    if req.to_device_id != local_device_id {
        Some("消息目标设备不是本机"@)
    } else if is_blank(req.message_id) {
        Some("messageId 不能为空"@)
    } else if is_blank(req.from_device_id) {
        Some("fromDeviceId 不能为空"@)
    } else if req.content_size <= 0 {
        Some("消息内容不能为空"@)
    } else if req.content_size > MAX_TEXT_BYTES {
        Some("消息超过 10MB 上限"@)
    } else if req.chunk_size != TEXT_CHUNK_BYTES {
        Some("消息分片大小不匹配"@)
    } else if req.total_chunks != chunk_count(req.content_size as int) {
        Some("消息分片数量不正确"@)
    } else {
        None
    }
}

/// Checks an announced inbound message against what this device accepts.
pub fn validate_inbound_request(request: &MessageInitRequest, local_device_id: &str) -> (r: Result<
    (),
    String,
>)
    ensures
        r is Ok <==> init_request_error(request@, local_device_id@) is None,
        r matches Err(e) ==> init_request_error(request@, local_device_id@) == Some(e@),
{
    if !str_eq(request.to_device_id.as_str(), local_device_id) {
        return Err("消息目标设备不是本机".to_owned());
    }
    if is_blank_str(request.message_id.as_str()) {
        return Err("messageId 不能为空".to_owned());
    }
    if is_blank_str(request.from_device_id.as_str()) {
        return Err("fromDeviceId 不能为空".to_owned());
    }
    if request.content_size <= 0 {
        return Err("消息内容不能为空".to_owned());
    }
    if request.content_size > MAX_TEXT_BYTES as i64 {
        return Err("消息超过 10MB 上限".to_owned());
    }
    if request.chunk_size != TEXT_CHUNK_BYTES as i64 {
        return Err("消息分片大小不匹配".to_owned());
    }
    let expected = total_chunks(request.content_size as usize);
    if request.total_chunks != expected as i64 {
        return Err("消息分片数量不正确".to_owned());
    }
    Ok(())
}

/// A new outbound message to `peer` with text `content`, about to be sent.
pub fn new_outbound_message(message_id: String, peer: &Device, content: &str, now: i64) -> (m:
    ChatMessage)
    ensures
        m@ == (ChatMessageView {
            id: message_id@,
            peer_device_id: peer.id@,
            peer_device_name: Some(peer.name@),
            direction: "outbound"@,
            content: content@,
            status: "sending"@,
            content_size: saturating_i64(utf8_bytes(content@).len() as int),
            chunk_size: TEXT_CHUNK_BYTES as i64,
            total_chunks: saturating_i64(chunk_count(utf8_bytes(content@).len() as int)),
            chunks_done: 0,
            created_at: now,
            updated_at: now,
            error: None,
        }),
{
    let size = byte_len(content);
    let chunks = total_chunks(size);
    ChatMessage {
        id: message_id,
        peer_device_id: peer.id.clone(),
        peer_device_name: Some(peer.name.clone()),
        direction: "outbound".to_owned(),
        content: content.to_owned(),
        status: "sending".to_owned(),
        content_size: usize_to_i64_saturating(size),
        chunk_size: TEXT_CHUNK_BYTES as i64,
        total_chunks: usize_to_i64_saturating(chunks),
        chunks_done: 0,
        created_at: now,
        updated_at: now,
        error: None,
    }
}

/// The record of an announced inbound message, before any chunk arrived.
pub fn new_inbound_message(request: MessageInitRequest, peer_name: String, now: i64) -> (m:
    ChatMessage)
    ensures
        m@ == (ChatMessageView {
            id: request.message_id@,
            peer_device_id: request.from_device_id@,
            peer_device_name: Some(peer_name@),
            direction: "inbound"@,
            content: Seq::empty(),
            status: "receiving"@,
            content_size: request.content_size,
            chunk_size: request.chunk_size,
            total_chunks: request.total_chunks,
            chunks_done: 0,
            created_at: request.created_at,
            updated_at: now,
            error: None,
        }),
{
    ChatMessage {
        id: request.message_id,
        peer_device_id: request.from_device_id,
        peer_device_name: Some(peer_name),
        direction: "inbound".to_owned(),
        content: String::new(),
        status: "receiving".to_owned(),
        content_size: request.content_size,
        chunk_size: request.chunk_size,
        total_chunks: request.total_chunks,
        chunks_done: 0,
        created_at: request.created_at,
        updated_at: now,
        error: None,
    }
}

/// The record of an inbound message once all its chunks arrived and were joined into
/// `content`: received, with every chunk counted, the text in place and no error.
pub fn completed_inbound_message(message: ChatMessage, content: String, now: i64) -> (m:
    ChatMessage)
    ensures
        m@ == (ChatMessageView {
            content: content@,
            status: "received"@,
            chunks_done: message.total_chunks,
            updated_at: now,
            error: None,
            ..message@
        }),
{
    ChatMessage {
        content,
        status: "received".to_owned(),
        chunks_done: message.total_chunks,
        updated_at: now,
        error: None,
        ..message
    }
}

/// What the sender announces for `message`, from the local device to `peer_device_id`.
pub fn message_init_request(
    message: &ChatMessage,
    local_device_id: &str,
    local_device_name: &str,
    peer_device_id: &str,
) -> (r: MessageInitRequest)
    ensures
        r@ == (MessageInitRequestView {
            message_id: message.id@,
            from_device_id: local_device_id@,
            from_device_name: local_device_name@,
            to_device_id: peer_device_id@,
            content_size: message.content_size,
            chunk_size: message.chunk_size,
            total_chunks: message.total_chunks,
            created_at: message.created_at,
        }),
{
    MessageInitRequest {
        message_id: message.id.clone(),
        from_device_id: local_device_id.to_owned(),
        from_device_name: local_device_name.to_owned(),
        to_device_id: peer_device_id.to_owned(),
        content_size: message.content_size,
        chunk_size: message.chunk_size,
        total_chunks: message.total_chunks,
        created_at: message.created_at,
    }
}

/// What the sender sends once all chunks of a message were accepted.
pub fn message_complete_request(local_device_id: &str, peer_device_id: &str) -> (r:
    MessageCompleteRequest)
    ensures
        r.from_device_id@ == local_device_id@,
        r.to_device_id@ == peer_device_id@,
{
    MessageCompleteRequest {
        from_device_id: local_device_id.to_owned(),
        to_device_id: peer_device_id.to_owned(),
    }
}

/// The reason a stored message may not be sent again, if any.
pub open spec fn retry_error(m: ChatMessageView) -> Option<Seq<char>> {
    if m.direction != "outbound"@ {
        Some("只能重试发送失败的发出消息"@)
    } else {
        content_error(utf8_bytes(m.content).len() as int)
    }
}

/// Checks that a stored message is one this device sent and that its text may go out.
pub fn check_retryable(message: &ChatMessage) -> (r: Result<(), String>)
    ensures
        r is Ok <==> retry_error(message@) is None,
        r matches Err(e) ==> retry_error(message@) == Some(e@),
{
    if !str_eq(message.direction.as_str(), "outbound") {
        return Err("只能重试发送失败的发出消息".to_owned());
    }
    validate_content(message.content.as_str())
}

/// Checks the size of one received chunk.
pub fn check_chunk_size(len: usize) -> (r: Result<(), String>)
    ensures
        r is Ok <==> len <= TEXT_CHUNK_BYTES,
        r matches Err(e) ==> e@ == "消息分片超过 256KB"@,
{
    if len > TEXT_CHUNK_BYTES {
        return Err("消息分片超过 256KB".to_owned());
    }
    Ok(())
}

/// The answer to a chunk, once the stored message reflects it.
pub fn chunk_response(message: &ChatMessage, chunk_index: i64) -> (r: MessageChunkResponse)
    ensures
        r.ok,
        r.message_id@ == message.id@,
        r.chunk_index == chunk_index,
        r.chunks_done == message.chunks_done,
        r.total_chunks == message.total_chunks,
{
    MessageChunkResponse {
        ok: true,
        message_id: message.id.clone(),
        chunk_index,
        chunks_done: message.chunks_done,
        total_chunks: message.total_chunks,
    }
}

/// The message is an inbound one still waiting for chunks.
pub open spec fn is_receiving(m: ChatMessageView) -> bool {
    m.direction == "inbound"@ && m.status == "receiving"@
}

/// The reason a chunk with index `chunk_index` is refused for stored message `m`, if any.
pub open spec fn chunk_error(m: ChatMessageView, chunk_index: i64) -> Option<Seq<char>> {
    if !is_receiving(m) {
        Some("消息当前状态不允许接收分片"@)
    } else if chunk_index < 0 || chunk_index >= m.total_chunks {
        Some("消息分片序号越界"@)
    } else {
        None
    }
}

/// Checks that the stored message accepts a chunk with index `chunk_index`.
pub fn check_chunk_acceptable(message: &ChatMessage, chunk_index: i64) -> (r: Result<(), String>)
    ensures
        r is Ok <==> chunk_error(message@, chunk_index) is None,
        r matches Err(e) ==> chunk_error(message@, chunk_index) == Some(e@),
{
    if !str_eq(message.direction.as_str(), "inbound") || !str_eq(
        message.status.as_str(),
        "receiving",
    ) {
        return Err("消息当前状态不允许接收分片".to_owned());
    }
    if chunk_index < 0 || chunk_index >= message.total_chunks {
        return Err("消息分片序号越界".to_owned());
    }
    Ok(())
}

/// The reason the stored message `m`, with `chunk_count` chunks stored, cannot be
/// completed, if any.
pub open spec fn completion_error(m: ChatMessageView, chunk_count_stored: i64) -> Option<Seq<char>> {
    if !is_receiving(m) {
        Some("消息当前状态不允许完成"@)
    } else if chunk_count_stored != m.total_chunks {
        Some("消息分片不完整"@)
    } else {
        None
    }
}

/// Checks that the stored message can be completed: it is still receiving, and the
/// number of chunks stored for it is its total.
pub fn check_completable(message: &ChatMessage, chunk_count_stored: i64) -> (r: Result<(), String>)
    ensures
        r is Ok <==> completion_error(message@, chunk_count_stored) is None,
        r matches Err(e) ==> completion_error(message@, chunk_count_stored) == Some(e@),
{
    if !str_eq(message.direction.as_str(), "inbound") || !str_eq(
        message.status.as_str(),
        "receiving",
    ) {
        return Err("消息当前状态不允许完成".to_owned());
    }
    if chunk_count_stored != message.total_chunks {
        return Err("消息分片不完整".to_owned());
    }
    Ok(())
}

/// Checks that a completion request is addressed to this device.
pub fn check_complete_target(request: &MessageCompleteRequest, local_device_id: &str) -> (r:
    Result<(), String>)
    ensures
        r is Ok <==> request.to_device_id@ == local_device_id@,
        r matches Err(e) ==> e@ == "消息目标设备不是本机"@,
{
    if !str_eq(request.to_device_id.as_str(), local_device_id) {
        return Err("消息目标设备不是本机".to_owned());
    }
    Ok(())
}

/// Checks that a completion request comes from the device that announced the message.
pub fn check_complete_sender(message: &ChatMessage, request: &MessageCompleteRequest) -> (r:
    Result<(), String>)
    ensures
        r is Ok <==> message.peer_device_id@ == request.from_device_id@,
        r matches Err(e) ==> e@ == "消息发送方与初始化记录不一致"@,
{
    if !str_eq(message.peer_device_id.as_str(), request.from_device_id.as_str()) {
        return Err("消息发送方与初始化记录不一致".to_owned());
    }
    Ok(())
}

} // verus!
