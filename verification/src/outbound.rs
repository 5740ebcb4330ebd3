//! The sender's side of a text message: the order of the requests it makes, what each
//! one carries, and what is recorded after each.
use vstd::prelude::*;

use crate::message::{chunk_count, utf8_bytes, ChatMessage};
use crate::numeric::{saturating_i64, usize_to_i64_saturating};
use crate::text::{decimal, decimal_string};

verus! {

broadcast use vstd::string::group_string_axioms;

/// What the sender of a message does next.
#[derive(Clone, Copy, Debug, PartialEq, Eq, Structural)]
pub enum OutboundStep {
    /// Announce the message to the peer.
    PostInit,
    /// Upload chunk `i`.
    PutChunk(usize),
    /// Record that chunk `i` went through.
    SaveProgress(usize),
    /// Tell the peer that every chunk was sent.
    PostComplete,
    /// Record the message as sent.
    SaveSent,
    /// Nothing is left to do.
    Finished,
}

/// The step after `step` for a message cut into `chunks` chunks.
pub open spec fn step_after(step: OutboundStep, chunks: nat) -> OutboundStep {
    match step {
        OutboundStep::PostInit => if chunks > 0 {
            OutboundStep::PutChunk(0)
        } else {
            OutboundStep::PostComplete
        },
        OutboundStep::PutChunk(i) => OutboundStep::SaveProgress(i),
        OutboundStep::SaveProgress(i) => if i + 1 < chunks {
            OutboundStep::PutChunk((i + 1) as usize)
        } else {
            OutboundStep::PostComplete
        },
        OutboundStep::PostComplete => OutboundStep::SaveSent,
        OutboundStep::SaveSent => OutboundStep::Finished,
        OutboundStep::Finished => OutboundStep::Finished,
    }
}

/// Every step of sending a message of `chunks` chunks, in order: the announcement, each
/// chunk followed by its record, the completion, the final record.
pub open spec fn outbound_schedule(chunks: nat) -> Seq<OutboundStep> {
    Seq::new(
        2 * chunks + 4,
        |j: int|
            if j == 0 {
                OutboundStep::PostInit
            } else if j <= 2 * chunks {
                if j % 2 == 1 {
                    OutboundStep::PutChunk(((j - 1) / 2) as usize)
                } else {
                    OutboundStep::SaveProgress(((j - 2) / 2) as usize)
                }
            } else if j == 2 * chunks + 1 {
                OutboundStep::PostComplete
            } else if j == 2 * chunks + 2 {
                OutboundStep::SaveSent
            } else {
                OutboundStep::Finished
            },
    )
}

/// The step after `step` for a message cut into `chunks` chunks.
pub fn next_outbound_step(step: OutboundStep, chunks: usize) -> (next: OutboundStep)
    ensures
        next == step_after(step, chunks as nat),
{
    match step {
        OutboundStep::PostInit => if chunks > 0 {
            OutboundStep::PutChunk(0)
        } else {
            OutboundStep::PostComplete
        },
        OutboundStep::PutChunk(i) => OutboundStep::SaveProgress(i),
        OutboundStep::SaveProgress(i) => if i < chunks && i + 1 < chunks {
            OutboundStep::PutChunk(i + 1)
        } else {
            OutboundStep::PostComplete
        },
        OutboundStep::PostComplete => OutboundStep::SaveSent,
        OutboundStep::SaveSent => OutboundStep::Finished,
        OutboundStep::Finished => OutboundStep::Finished,
    }
}

/// Starting from `PostInit` and following `next_outbound_step`, the sender goes through
/// `outbound_schedule` step by step: each chunk index once, in increasing order, each
/// upload followed by its record, and finishes after the final record.
pub proof fn lemma_outbound_schedule(chunks: nat)
    requires
        chunks < usize::MAX,
    ensures
        outbound_schedule(chunks)[0] == OutboundStep::PostInit,
        outbound_schedule(chunks).last() == OutboundStep::Finished,
        forall|j: int|
            0 <= j < outbound_schedule(chunks).len() - 1 ==> step_after(
                #[trigger] outbound_schedule(chunks)[j],
                chunks,
            ) == outbound_schedule(chunks)[j + 1],
        forall|i: int|
            0 <= i < chunks ==> #[trigger] outbound_schedule(chunks)[2 * i + 1]
                == OutboundStep::PutChunk(i as usize),
{
    let s = outbound_schedule(chunks);
    assert forall|j: int| 0 <= j < s.len() - 1 implies step_after(#[trigger] s[j], chunks) == s[j
        + 1] by {
        if j == 0 {
        } else if j <= 2 * chunks {
            if j % 2 == 1 {
                assert((j + 1) % 2 == 0);
                assert((j + 1 - 2) / 2 == (j - 1) / 2);
            } else {
                let i = (j - 2) / 2;
                assert(j == 2 * i + 2);
                if i + 1 < chunks {
                    assert(j + 1 <= 2 * chunks);
                    assert((j + 1) % 2 == 1);
                    assert((j + 1 - 1) / 2 == i + 1);
                } else {
                    assert(j + 1 == 2 * chunks + 1);
                }
            }
        } else {
        }
    }
    assert forall|i: int| 0 <= i < chunks implies #[trigger] s[2 * i + 1] == OutboundStep::PutChunk(
        i as usize,
    ) by {
        assert((2 * i + 1) % 2 == 1);
        assert((2 * i + 1 - 1) / 2 == i);
    }
}

/// Path of the announcement request.
pub fn message_init_path() -> (p: String)
    ensures
        p@ == "/api/messages/init"@,
{
    "/api/messages/init".to_owned()
}

/// Path of the upload of chunk `index` of message `message_id`.
pub fn message_chunk_path(message_id: &str, index: usize) -> (p: String)
    ensures
        p@ == "/api/messages/"@ + message_id@ + "/chunks/"@ + decimal(index as nat),
{
    let digits = decimal_string(index as u64);
    "/api/messages/".to_owned().concat(message_id).concat("/chunks/").concat(digits.as_str())
}

/// Path of the completion request of message `message_id`.
pub fn message_complete_path(message_id: &str) -> (p: String)
    ensures
        p@ == "/api/messages/"@ + message_id@ + "/complete"@,
{
    "/api/messages/".to_owned().concat(message_id).concat("/complete")
}

/// A change to a stored message's status, progress and error.
#[derive(Clone, Debug)]
pub struct StatusUpdate {
    pub status: String,
    pub chunks_done: i64,
    pub error: Option<String>,
}

/// What is recorded after chunk `index` went through: still sending, `index + 1` chunks done.
pub fn progress_update(index: usize) -> (u: StatusUpdate)
    requires
        index < usize::MAX,
    ensures
        u.status@ == "sending"@,
        u.chunks_done == saturating_i64(index + 1),
        u.error is None,
{
    StatusUpdate {
        status: "sending".to_owned(),
        chunks_done: usize_to_i64_saturating(index + 1),
        error: None,
    }
}

/// What is recorded once the peer accepted the completion: sent, with all chunks done.
pub fn sent_update(message: &ChatMessage) -> (u: StatusUpdate)
    ensures
        u.status@ == "sent"@,
        u.chunks_done == message.total_chunks,
        u.error is None,
{
    StatusUpdate { status: "sent".to_owned(), chunks_done: message.total_chunks, error: None }
}

/// What is recorded when any step fails: failed, with the progress the message had when
/// sending began, and the error.
pub fn failure_update(message: &ChatMessage, error: String) -> (u: StatusUpdate)
    ensures
        u.status@ == "failed"@,
        u.chunks_done == message.chunks_done,
        u.error == Some(error),
{
    StatusUpdate { status: "failed".to_owned(), chunks_done: message.chunks_done, error: Some(error) }
}

/// What is recorded when a message is sent again: sending, no chunk done, no error.
pub fn resend_update() -> (u: StatusUpdate)
    ensures
        u.status@ == "sending"@,
        u.chunks_done == 0,
        u.error is None,
{
    StatusUpdate { status: "sending".to_owned(), chunks_done: 0, error: None }
}

/// Number of chunks the text of `message` is cut into on the wire.
pub fn outbound_chunk_count(message: &ChatMessage) -> (n: usize)
    ensures
        n == chunk_count(utf8_bytes(message.content@).len() as int),
{
    crate::message::total_chunks(crate::message::byte_len(message.content.as_str()))
}

} // verus!
