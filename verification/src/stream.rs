//! The adapter: a pipe's read endpoint as a finite sequence of chunks.

use vstd::prelude::*;
use vstd::slice::{slice_subrange, slice_to_vec};
use crate::chunk::{contents, first_chunk, from_vec, rest};
use crate::conduit::{pending, read, BUFFER_SIZE};

verus! {

/// Hands out what arrives at a pipe's read endpoint, one chunk per demand,
/// until the pipe ends or fails.
pub struct PipeReaderStream {
    inner: pipe::PipeReader,
    exhausted: bool,
}

/// What one read from the pipe amounts to for the consumer of the sequence.
///
/// A read of no bytes is the end of the sequence. A read of `n > 0` bytes is
/// one chunk that holds a copy of the first `n` bytes of `buf`. A failed read
/// is one error item that carries the failure as it came.
pub fn item_of_read(buf: &[u8; BUFFER_SIZE], outcome: Result<usize, std::io::Error>) -> (item:
    Option<Result<bytes::Bytes, std::io::Error>>)
    requires
        outcome matches Ok(n) ==> n <= BUFFER_SIZE,
    ensures
        (match outcome {
            Ok(n) => if n == 0 {
                item is None
            } else {
                item matches Some(Ok(chunk)) && contents(chunk) == buf@.take(n as int)
            },
            Err(e) => item == Some(Err::<bytes::Bytes, std::io::Error>(e)),
        }),
{
    match outcome {
        Ok(n) => {
            if n == 0 {
                None
            } else {
                let copied = slice_to_vec(slice_subrange(buf.as_slice(), 0, n));
                Some(Ok(from_vec(copied)))
            }
        },
        Err(e) => Some(Err(e)),
    }
}

impl PipeReaderStream {
    /// The bytes that the adapter has received and not yet handed out.
    pub closed spec fn pending(&self) -> Seq<u8> {
        pending(self.inner)
    }

    /// Whether the sequence has ended: by the end of the pipe or by an error.
    pub closed spec fn exhausted(&self) -> bool {
        self.exhausted
    }

    /// Wraps a read endpoint. The sequence has not ended, and what the
    /// endpoint had pending is still pending.
    pub fn new(inner: pipe::PipeReader) -> (stream: Self)
        ensures
            !stream.exhausted(),
            stream.pending() == pending(inner),
    {
        PipeReaderStream { inner, exhausted: false }
    }

    /// Whether the sequence has ended.
    pub fn is_exhausted(&self) -> (b: bool)
        ensures
            b == self.exhausted(),
    {
        self.exhausted
    }

    /// The next item of the sequence, from one read of the pipe. The call
    /// returns when the read does: it never answers "not ready yet".
    ///
    /// Once the sequence has ended there is no further item and the pipe is
    /// not read again. While bytes are pending the item is their first chunk,
    /// and the others stay pending. With nothing pending the read waits for
    /// the writer, and the item is whatever that read amounts to: a chunk of
    /// at least one byte, which is short only where nothing stays pending;
    /// the end; or an error, which also ends the sequence.
    pub fn poll_next(&mut self) -> (item: Option<Result<bytes::Bytes, std::io::Error>>)
        ensures
            old(self).exhausted() ==> item is None && *final(self) == *old(self),
            !old(self).exhausted() && old(self).pending().len() > 0 ==> ({
                &&& item matches Some(Ok(chunk)) && contents(chunk) == first_chunk(
                    old(self).pending(),
                )
                &&& final(self).pending() == rest(old(self).pending())
            }),
            !old(self).exhausted() ==> (match item {
                None => final(self).exhausted() && final(self).pending().len() == 0,
                Some(Ok(chunk)) => {
                    &&& !final(self).exhausted()
                    &&& contents(chunk) == first_chunk(contents(chunk) + final(self).pending())
                    &&& 1 <= contents(chunk).len() <= BUFFER_SIZE
                },
                Some(Err(_)) => final(self).exhausted(),
            }),
    {
        if self.exhausted {
            return None;
        }
        let mut buf: [u8; BUFFER_SIZE] = [0u8; BUFFER_SIZE];
        let outcome = read(&mut self.inner, &mut buf);
        let item = item_of_read(&buf, outcome);
        match &item {
            Some(Ok(_)) => {},
            _ => {
                self.exhausted = true;
            },
        }
        item
    }
}

} // verus!
