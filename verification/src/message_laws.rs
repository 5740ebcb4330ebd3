//! Laws that tie the sender's side of a text message to the receiver's side.
use vstd::prelude::*;

use crate::chunking::{assembly_error, chunk_at, chunks_of, joined, lemma_chunks_rejoin};
use crate::device::DeviceView;
use crate::message::{
    chunk_count, chunk_error, content_error, init_request_error, is_receiving, utf8_bytes,
    ChatMessageView, MessageInitRequestView, MAX_TEXT_BYTES, TEXT_CHUNK_BYTES,
};
use crate::numeric::saturating_i64;
use crate::text::is_blank;

verus! {

broadcast use vstd::string::group_string_axioms;

/// The announcement a sender makes for a message it built from a text it accepted is
/// accepted by the peer it is addressed to, provided the sender's own id and the message
/// id are not blank.
pub proof fn lemma_receiver_accepts_sender_announcement(
    message_id: Seq<char>,
    content: Seq<char>,
    peer: DeviceView,
    local_device_id: Seq<char>,
    local_device_name: Seq<char>,
    now: i64,
)
    requires
        content_error(utf8_bytes(content).len() as int) is None,
        !is_blank(message_id),
        !is_blank(local_device_id),
    ensures
        ({
            let n = utf8_bytes(content).len() as int;
            let request = MessageInitRequestView {
                message_id,
                from_device_id: local_device_id,
                from_device_name: local_device_name,
                to_device_id: peer.id,
                content_size: saturating_i64(n),
                chunk_size: TEXT_CHUNK_BYTES as i64,
                total_chunks: saturating_i64(chunk_count(n)),
                created_at: now,
            };
            init_request_error(request, peer.id) is None
        }),
{
    let n = utf8_bytes(content).len() as int;
    assert(0 < n <= MAX_TEXT_BYTES);
    let c = TEXT_CHUNK_BYTES as int;
    assert((n + c - 1) / c <= n) by (nonlinear_arith)
        requires
            0 < n,
            c == 262144,
    ;
}

/// The record a receiver makes of a message announced with `total_chunks` chunks accepts
/// exactly the chunk indices `0 .. total_chunks`.
pub proof fn lemma_announced_message_accepts_its_chunks(m: ChatMessageView, chunk_index: i64)
    requires
        is_receiving(m),
    ensures
        chunk_error(m, chunk_index) is None <==> 0 <= chunk_index < m.total_chunks,
{
}

/// The chunks a sender cuts a text into, stored by index and joined by the receiver,
/// pass the receiver's checks and decode to that same text; each fits in one chunk.
pub proof fn lemma_chunks_rejoin_to_text(content: Seq<char>, received: Seq<Vec<u8>>)
    requires
        received.map_values(|c: Vec<u8>| c@) == chunks_of(utf8_bytes(content)),
    ensures
        assembly_error(saturating_i64(utf8_bytes(content).len() as int), joined(received)) is None,
        forall|s: Seq<char>| #[trigger] utf8_bytes(s) == joined(received) ==> s == content,
        forall|i: int|
            0 <= i < received.len() ==> (#[trigger] received[i])@ == chunk_at(
                utf8_bytes(content),
                i,
            ) && received[i]@.len() <= TEXT_CHUNK_BYTES,
{
    let bytes = utf8_bytes(content);
    lemma_chunks_rejoin(bytes);
    assert(joined(received) == bytes);
    vstd::utf8::encode_utf8_valid_utf8(content);
    assert forall|s: Seq<char>| #[trigger] utf8_bytes(s) == joined(received) implies s
        == content by {
        vstd::utf8::encode_utf8_decode_utf8(s);
        vstd::utf8::encode_utf8_decode_utf8(content);
    }
    assert forall|i: int| 0 <= i < received.len() implies (#[trigger] received[i])@ == chunk_at(
        bytes,
        i,
    ) && received[i]@.len() <= TEXT_CHUNK_BYTES by {
        assert(received.map_values(|c: Vec<u8>| c@)[i] == received[i]@);
        assert(chunks_of(bytes)[i] == chunk_at(bytes, i));
    }
}

} // verus!
