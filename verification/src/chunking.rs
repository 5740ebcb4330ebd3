//! How a text is cut into chunks for the wire and put back together on arrival.
use vstd::prelude::*;

use crate::message::{chunk_count, utf8_bytes, TEXT_CHUNK_BYTES};
use crate::numeric::{saturating_i64, usize_to_i64_saturating};
use crate::text::string_from_utf8;

verus! {

broadcast use vstd::string::group_string_axioms;

/// Chunk `i` of `bytes`: bytes `i * TEXT_CHUNK_BYTES` up to the next multiple, or the end.
pub open spec fn chunk_at(bytes: Seq<u8>, i: int) -> Seq<u8> {
    let start = i * TEXT_CHUNK_BYTES;
    let end = if start + TEXT_CHUNK_BYTES <= bytes.len() {
        start + TEXT_CHUNK_BYTES
    } else {
        bytes.len() as int
    };
    bytes.subrange(start, end)
}

/// The first `k` chunks of `bytes`.
pub open spec fn chunks_prefix(bytes: Seq<u8>, k: nat) -> Seq<Seq<u8>> {
    Seq::new(k, |i: int| chunk_at(bytes, i))
}

/// All chunks of `bytes`, in order.
pub open spec fn chunks_of(bytes: Seq<u8>) -> Seq<Seq<u8>> {
    chunks_prefix(bytes, chunk_count(bytes.len() as int) as nat)
}

/// The bytes held by a list of chunk buffers, joined in order.
pub open spec fn joined(chunks: Seq<Vec<u8>>) -> Seq<u8> {
    chunks.map_values(|c: Vec<u8>| c@).flatten()
}

proof fn lemma_chunk_start_in_bounds(n: int, i: int)
    requires
        n >= 0,
        0 <= i < chunk_count(n),
    ensures
        i * TEXT_CHUNK_BYTES < n,
        0 <= i * TEXT_CHUNK_BYTES,
{
    let c = TEXT_CHUNK_BYTES as int;
    assert(i < (n + c - 1) / c);
    assert(i * c < n) by (nonlinear_arith)
        requires
            i < (n + c - 1) / c,
            c == 262144,
            0 <= i,
    ;
    assert(0 <= i * c) by (nonlinear_arith)
        requires
            0 <= i,
            c == 262144,
    ;
}

proof fn lemma_chunk_count_end(n: int)
    requires
        n > 0,
    ensures
        (chunk_count(n) - 1) * TEXT_CHUNK_BYTES < n,
        n <= chunk_count(n) * TEXT_CHUNK_BYTES,
{
    let c = TEXT_CHUNK_BYTES as int;
    let k = chunk_count(n);
    assert(k == (n + c - 1) / c);
    assert((k - 1) * c < n && n <= k * c) by (nonlinear_arith)
        requires
            k == (n + c - 1) / c,
            c == 262144,
            n > 0,
    ;
}

proof fn lemma_chunks_prefix_joined(bytes: Seq<u8>, k: nat)
    requires
        k <= chunk_count(bytes.len() as int),
    ensures
        chunks_prefix(bytes, k).flatten() == bytes.subrange(
            0,
            if k * TEXT_CHUNK_BYTES <= bytes.len() {
                k * TEXT_CHUNK_BYTES
            } else {
                bytes.len() as int
            },
        ),
    decreases k,
{
    if k == 0 {
        assert(chunks_prefix(bytes, 0) =~= Seq::<Seq<u8>>::empty());
        assert(bytes.subrange(0, 0) =~= Seq::<u8>::empty());
    } else {
        let j = (k - 1) as nat;
        lemma_chunks_prefix_joined(bytes, j);
        lemma_chunk_start_in_bounds(bytes.len() as int, j as int);
        assert(chunks_prefix(bytes, k) =~= chunks_prefix(bytes, j).push(chunk_at(bytes, j as int)));
        chunks_prefix(bytes, j).lemma_flatten_push(chunk_at(bytes, j as int));
        let c = TEXT_CHUNK_BYTES as int;
        assert(j * c + c == k * c) by (nonlinear_arith)
            requires
                j + 1 == k,
        ;
        let end = if k * c <= bytes.len() {
            k * c
        } else {
            bytes.len() as int
        };
        assert(bytes.subrange(0, j * c) + bytes.subrange(j * c, end) =~= bytes.subrange(0, end));
    }
}

/// Chunks of a text, joined in order, give the text's bytes back; every chunk is
/// non-empty and at most `TEXT_CHUNK_BYTES` long; there are `chunk_count` of them.
pub proof fn lemma_chunks_rejoin(bytes: Seq<u8>)
    ensures
        chunks_of(bytes).flatten() == bytes,
        chunks_of(bytes).len() == chunk_count(bytes.len() as int),
        forall|i: int|
            0 <= i < chunks_of(bytes).len() ==> 0 < (#[trigger] chunks_of(bytes)[i]).len()
                <= TEXT_CHUNK_BYTES,
{
    let n = bytes.len() as int;
    let k = chunk_count(n) as nat;
    lemma_chunks_prefix_joined(bytes, k);
    if n > 0 {
        lemma_chunk_count_end(n);
    }
    assert(bytes.subrange(0, n) =~= bytes);
    assert forall|i: int| 0 <= i < chunks_of(bytes).len() implies 0 < (
    #[trigger] chunks_of(bytes)[i]).len() <= TEXT_CHUNK_BYTES by {
        lemma_chunk_start_in_bounds(n, i);
    }
}

/// Chunk `index` of the UTF-8 bytes of `content`, as the sender puts it on the wire.
pub fn outbound_chunk(content: &str, index: usize) -> (c: Vec<u8>)
    requires
        index < chunk_count(utf8_bytes(content@).len() as int),
    ensures
        c@ == chunk_at(utf8_bytes(content@), index as int),
{
    let bytes = content.as_bytes();
    let n = bytes.len();
    proof {
        lemma_chunk_start_in_bounds(n as int, index as int);
    }
    let start = index * TEXT_CHUNK_BYTES;
    let end = if n - start >= TEXT_CHUNK_BYTES {
        start + TEXT_CHUNK_BYTES
    } else {
        n
    };
    let mut out: Vec<u8> = Vec::new();
    let mut k = start;
    while k < end
        invariant
            start <= k <= end <= n,
            n == bytes@.len(),
            bytes@ == utf8_bytes(content@),
            out@ == bytes@.subrange(start as int, k as int),
        decreases end - k,
    {
        out.push(bytes[k]);
        k = k + 1;
        proof {
            assert(out@ =~= bytes@.subrange(start as int, k as int));
        }
    }
    out
}

/// The reason `assemble_inbound_content` refuses the chunks of a message of
/// `content_size` bytes, given the bytes they join into.
pub open spec fn assembly_error(content_size: i64, joined_bytes: Seq<u8>) -> Option<Seq<char>> {
    if saturating_i64(joined_bytes.len() as int) != content_size {
        Some("消息合并后大小不匹配"@)
    } else if !vstd::utf8::valid_utf8(joined_bytes) {
        Some("消息内容不是有效 UTF-8"@)
    } else {
        None
    }
}

/// Joins the stored chunks of an inbound message, taken in the order of their index,
/// and decodes them as the message's text.
pub fn assemble_inbound_content(content_size: i64, chunks: &Vec<Vec<u8>>) -> (r: Result<
    String,
    String,
>)
    ensures
        r is Ok <==> assembly_error(content_size, joined(chunks@)) is None,
        r matches Ok(s) ==> utf8_bytes(s@) == joined(chunks@),
        r matches Err(e) ==> assembly_error(content_size, joined(chunks@)) == Some(e@),
{
    let mut out: Vec<u8> = Vec::new();
    let mut i: usize = 0;
    while i < chunks.len()
        invariant
            i <= chunks@.len(),
            out@ == joined(chunks@.subrange(0, i as int)),
        decreases chunks.len() - i,
    {
        let chunk = &chunks[i];
        let ghost before = out@;
        let mut k: usize = 0;
        while k < chunk.len()
            invariant
                k <= chunk@.len(),
                out@ == before + chunk@.subrange(0, k as int),
            decreases chunk.len() - k,
        {
            out.push(chunk[k]);
            k = k + 1;
            proof {
                assert(out@ =~= before + chunk@.subrange(0, k as int));
            }
        }
        proof {
            let prev = chunks@.subrange(0, i as int);
            let next = chunks@.subrange(0, i + 1);
            assert(next =~= prev.push(chunks@[i as int]));
            assert(next.map_values(|c: Vec<u8>| c@) =~= prev.map_values(|c: Vec<u8>| c@).push(
                chunks@[i as int]@,
            ));
            prev.map_values(|c: Vec<u8>| c@).lemma_flatten_push(chunks@[i as int]@);
            assert(chunk@.subrange(0, k as int) =~= chunk@);
        }
        i = i + 1;
    }
    proof {
        assert(chunks@.subrange(0, chunks@.len() as int) =~= chunks@);
    }
    let len = usize_to_i64_saturating(out.len());
    if len != content_size {
        return Err("消息合并后大小不匹配".to_owned());
    }
    let ghost bytes = out@;
    match string_from_utf8(out) {
        Some(s) => {
            proof {
                vstd::utf8::decode_utf8_encode_utf8(bytes);
            }
            Ok(s)
        },
        None => Err("消息内容不是有效 UTF-8".to_owned()),
    }
}

} // verus!
