//! The read endpoint of the pipe, as far as the verifier can see it.
//!
//! The pipe itself lives in the `pipe` crate. Nothing in this module is
//! proved: it states, for each call that the rest of the library makes into
//! that crate, what the crate's source shows of the call.

use vstd::prelude::*;

verus! {

/// Size in bytes of the buffer that one read from the pipe fills, and so the
/// largest chunk that is ever handed on.
pub const BUFFER_SIZE: usize = 64;

/// `pipe::PipeReader`, the read endpoint. Opaque to the verifier.
#[verifier::external_type_specification]
#[verifier::external_body]
pub struct ExPipeReader(pipe::PipeReader);

/// `std::io::Error`. Opaque to the verifier; values are only passed on.
#[verifier::external_type_specification]
#[verifier::external_body]
pub struct ExIoError(std::io::Error);

/// The bytes that a reader has already received from the writer and not yet
/// handed out: what `pipe::PipeReader::buffer` returns. They are held by the
/// reader itself, so no other thread can change them.
pub uninterp spec fn pending(reader: pipe::PipeReader) -> Seq<u8>;

/// How many of the pending bytes `p` one read takes.
pub open spec fn take_len(p: Seq<u8>) -> int {
    if p.len() <= BUFFER_SIZE {
        p.len() as int
    } else {
        BUFFER_SIZE as int
    }
}

/// One call of `<pipe::PipeReader as std::io::Read>::read` on a buffer of
/// `BUFFER_SIZE` bytes.
///
/// Claimed of it, from the crate's source:
/// - `Ok(n)` has `n <= BUFFER_SIZE`, and the buffer is untouched from `n` on;
/// - while the reader holds pending bytes the call does not wait for the
///   writer: it succeeds, copies the first `take_len` of them to the front of
///   the buffer, and keeps the others pending, in order;
/// - `Ok(n)` with `n < BUFFER_SIZE` leaves nothing pending: a read stops
///   short of the buffer's end only where the reader has no more to give. So
///   `Ok(0)`, which is returned only once every writer is gone and everything
///   received has been handed out, leaves nothing pending either.
///
/// With nothing pending the call blocks for the writer, and what it returns
/// depends on what the writer does; nothing more is claimed of that case.
#[verifier::external_body]
pub(crate) fn read(reader: &mut pipe::PipeReader, buf: &mut [u8; BUFFER_SIZE]) -> (outcome: Result<
    usize,
    std::io::Error,
>)
    ensures
        outcome matches Ok(n) ==> n <= BUFFER_SIZE && final(buf)@.skip(n as int) == old(buf)@.skip(
            n as int,
        ),
        pending(*old(reader)).len() > 0 ==> ({
            &&& outcome matches Ok(n) && n == take_len(pending(*old(reader)))
            &&& final(buf)@.take(take_len(pending(*old(reader)))) == pending(*old(reader)).take(
                take_len(pending(*old(reader))),
            )
            &&& pending(*final(reader)) == pending(*old(reader)).skip(
                take_len(pending(*old(reader))),
            )
        }),
        outcome matches Ok(n) && n < BUFFER_SIZE ==> pending(*final(reader)).len() == 0,
{
    std::io::Read::read(reader, &mut buf[..])
}

} // verus!
