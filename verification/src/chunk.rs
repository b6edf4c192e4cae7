//! Owned byte chunks, and how a run of bytes falls into chunks.

use vstd::prelude::*;
use crate::conduit::{take_len, BUFFER_SIZE};

verus! {

/// `bytes::Bytes`, the owned chunk that is handed on. Opaque to the verifier.
#[verifier::external_type_specification]
#[verifier::external_body]
pub struct ExBytes(bytes::Bytes);

/// The bytes that a chunk holds, in order: the slice that `bytes::Bytes`
/// dereferences to.
pub uninterp spec fn contents(chunk: bytes::Bytes) -> Seq<u8>;

/// `<bytes::Bytes as From<Vec<u8>>>::from`: the chunk takes over the vector's
/// bytes, all of them and in the same order.
#[verifier::external_body]
pub(crate) fn from_vec(bytes: Vec<u8>) -> (chunk: bytes::Bytes)
    ensures
        contents(chunk) == bytes@,
{
    bytes::Bytes::from(bytes)
}

/// The chunk that comes first out of the pending bytes `p`.
pub open spec fn first_chunk(p: Seq<u8>) -> Seq<u8> {
    p.take(take_len(p))
}

/// What stays pending once the first chunk has left `p`.
pub open spec fn rest(p: Seq<u8>) -> Seq<u8> {
    p.skip(take_len(p))
}

/// All the chunks that `p` falls into, first to last.
pub open spec fn chunks(p: Seq<u8>) -> Seq<Seq<u8>>
    decreases p.len(),
{
    if p.len() == 0 {
        Seq::empty()
    } else {
        seq![first_chunk(p)] + chunks(rest(p))
    }
}

/// The chunks in `cs` laid end to end.
pub open spec fn concat(cs: Seq<Seq<u8>>) -> Seq<u8>
    decreases cs.len(),
{
    if cs.len() == 0 {
        Seq::empty()
    } else {
        cs[0] + concat(cs.skip(1))
    }
}

/// The chunks that a run of messages falls into, first to last, when a new
/// message is taken up only once the one before has left in full: each
/// message falls into chunks by itself, and no chunk spans two messages.
pub open spec fn chunks_of_all(messages: Seq<Seq<u8>>) -> Seq<Seq<u8>>
    decreases messages.len(),
{
    if messages.len() == 0 {
        Seq::empty()
    } else {
        chunks(messages[0]) + chunks_of_all(messages.skip(1))
    }
}

/// How many chunks a run of `len` bytes falls into.
pub open spec fn chunk_count(len: nat) -> nat {
    ((len + BUFFER_SIZE - 1) / (BUFFER_SIZE as int)) as nat
}

/// Chunking loses nothing and reorders nothing: the chunks of `p`, laid end
/// to end, are `p` again, whatever the length of `p`.
pub proof fn lemma_chunks_concat(p: Seq<u8>)
    ensures
        concat(chunks(p)) == p,
    decreases p.len(),
{
    if p.len() > 0 {
        let cs = chunks(p);
        lemma_chunks_concat(rest(p));
        assert(cs[0] == first_chunk(p));
        assert(cs.skip(1) =~= chunks(rest(p)));
        assert(first_chunk(p) + rest(p) =~= p);
    }
}

/// A run of `len` bytes falls into `chunk_count(len)` chunks. Every chunk
/// but the last is full; the last holds what is left, at least one byte.
pub proof fn lemma_chunks_sizes(p: Seq<u8>)
    ensures
        chunks(p).len() == chunk_count(p.len()),
        forall|i: int|
            0 <= i < chunks(p).len() - 1 ==> (#[trigger] chunks(p)[i]).len() == BUFFER_SIZE,
        p.len() > 0 ==> chunks(p).last().len() == p.len() - (chunk_count(p.len()) - 1)
            * BUFFER_SIZE,
        forall|i: int|
            0 <= i < chunks(p).len() ==> 1 <= (#[trigger] chunks(p)[i]).len() <= BUFFER_SIZE,
    decreases p.len(),
{
    if p.len() > 0 {
        let cs = chunks(p);
        let tail = chunks(rest(p));
        lemma_chunks_sizes(rest(p));
        assert(cs[0] == first_chunk(p));
        assert forall|i: int| 1 <= i < cs.len() implies cs[i] == tail[i - 1] by {}
        if p.len() > BUFFER_SIZE {
            assert(cs.last() == tail.last());
        } else {
            assert(tail.len() == 0);
        }
    }
}

/// Laying chunks end to end goes through a join: the bytes of `a + b` are
/// the bytes of `a` followed by the bytes of `b`.
pub proof fn lemma_concat_join(a: Seq<Seq<u8>>, b: Seq<Seq<u8>>)
    ensures
        concat(a + b) == concat(a) + concat(b),
    decreases a.len(),
{
    if a.len() == 0 {
        assert(a + b =~= b);
        assert(concat(a) + concat(b) =~= concat(b));
    } else {
        lemma_concat_join(a.skip(1), b);
        assert((a + b).skip(1) =~= a.skip(1) + b);
        assert((a + b)[0] == a[0]);
        assert(concat(a + b) =~= concat(a) + concat(b));
    }
}

/// Bytes come out in the order in which they went in, wherever the writes
/// and the chunks are cut: the chunks of a run of messages, laid end to end,
/// are the messages laid end to end.
pub proof fn lemma_messages_in_order(messages: Seq<Seq<u8>>)
    ensures
        concat(chunks_of_all(messages)) == concat(messages),
    decreases messages.len(),
{
    if messages.len() > 0 {
        lemma_messages_in_order(messages.skip(1));
        lemma_chunks_concat(messages[0]);
        lemma_concat_join(chunks(messages[0]), chunks_of_all(messages.skip(1)));
    }
}

} // verus!
