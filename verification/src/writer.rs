//! The rotating writer: a sink that rotates what it is given and forwards it.

use core::convert::Infallible;
use vstd::prelude::*;
use crate::cipher::{lemma_rot13_seq_involution, rot13_seq, rotate_bytes};
use crate::sink::ByteSink;

verus! {

/// Writes to the sink it owns, with the ASCII letters of every buffer rotated
/// by thirteen places. It keeps no bytes back and has no state of its own.
pub struct Rot13Writer<S: ByteSink> {
    inner: S,
}

impl<S: ByteSink> Rot13Writer<S> {
    /// The sink that this writer forwards to.
    pub closed spec fn sink(&self) -> S {
        self.inner
    }

    /// Wraps `inner`, which is left as it is until the first write.
    pub fn new(inner: S) -> (w: Self)
        ensures
            w.sink() == inner,
    {
        Rot13Writer { inner }
    }

    /// The wrapped sink, for reading.
    pub fn get_ref(&self) -> (s: &S)
        ensures
            *s == self.sink(),
    {
        &self.inner
    }

    /// Gives the wrapped sink back.
    pub fn into_inner(self) -> (s: S)
        ensures
            s == self.sink(),
    {
        self.inner
    }
}

/// The writer is a sink itself, so writers nest.
impl<S: ByteSink> ByteSink for Rot13Writer<S> {
    type Error = S::Error;

    /// An empty buffer is answered with `Ok(0)` and the wrapped sink is left
    /// alone; any other buffer is rotated and offered to the wrapped sink
    /// once, whose answer is the writer's answer.
    open spec fn write_outcome(
        pre: Self,
        buf: Seq<u8>,
        post: Self,
        r: Result<usize, S::Error>,
    ) -> bool {
        if buf.len() == 0 {
            &&& post.sink() == pre.sink()
            &&& r matches Ok(n)
            &&& n == 0
        } else {
            S::write_outcome(pre.sink(), rot13_seq(buf), post.sink(), r)
        }
    }

    /// A flush is the wrapped sink's flush.
    open spec fn flush_outcome(pre: Self, post: Self, r: Result<(), S::Error>) -> bool {
        S::flush_outcome(pre.sink(), post.sink(), r)
    }

    /// Rotates `buf` and offers the rotated bytes to the wrapped sink, once.
    ///
    /// The answer is the wrapped sink's answer. Rotation keeps every byte in
    /// its place, so a count of `n` rotated bytes accepted is a count of `n`
    /// bytes of `buf` consumed: a short write is reported as it happened, and
    /// an error of the wrapped sink is handed on as it came. An empty buffer
    /// returns `Ok(0)` without touching the wrapped sink.
    fn write(&mut self, buf: &[u8]) -> (r: Result<usize, S::Error>)
        ensures
            buf@.len() == 0 ==> (r matches Ok(n) && n == 0),
            buf@.len() == 0 ==> final(self).sink() == old(self).sink(),
            buf@.len() > 0 ==> S::write_outcome(
                old(self).sink(),
                rot13_seq(buf@),
                final(self).sink(),
                r,
            ),
            r matches Ok(n) ==> n <= buf@.len(),
    {
        if buf.len() == 0 {
            return Ok(0);
        }
        let rotated = rotate_bytes(buf);
        self.inner.write(rotated.as_slice())
    }

    /// Flushes the wrapped sink and returns what it reports.
    fn flush(&mut self) -> (r: Result<(), S::Error>)
        ensures
            S::flush_outcome(old(self).sink(), final(self).sink(), r),
    {
        self.inner.flush()
    }
}

/// A write through a writer into a vector appends the rotated buffer, whole,
/// and reports the buffer's length.
pub proof fn lemma_write_collects_rotation(
    pre: Rot13Writer<Vec<u8>>,
    buf: Seq<u8>,
    post: Rot13Writer<Vec<u8>>,
    r: Result<usize, Infallible>,
)
    requires
        Rot13Writer::<Vec<u8>>::write_outcome(pre, buf, post, r),
    ensures
        post.sink()@ == pre.sink()@ + rot13_seq(buf),
        r matches Ok(n) && n == buf.len(),
{
}

/// Two nested writers cancel: on a buffer that is not empty, a write through
/// a writer round a writer round a sink does to that sink, and returns, what
/// a write of the same buffer straight to the sink may do and return, and
/// nothing else.
pub proof fn lemma_nested_write_is_direct<S: ByteSink>(
    pre: Rot13Writer<Rot13Writer<S>>,
    buf: Seq<u8>,
    post: Rot13Writer<Rot13Writer<S>>,
    r: Result<usize, S::Error>,
)
    requires
        buf.len() > 0,
    ensures
        Rot13Writer::<Rot13Writer<S>>::write_outcome(pre, buf, post, r) == S::write_outcome(
            pre.sink().sink(),
            buf,
            post.sink().sink(),
            r,
        ),
{
    lemma_rot13_seq_involution(buf);
}

/// A write through a writer round a writer round a vector appends the buffer
/// as it was given, whole, and reports the buffer's length.
pub proof fn lemma_nested_write_collects_plain(
    pre: Rot13Writer<Rot13Writer<Vec<u8>>>,
    buf: Seq<u8>,
    post: Rot13Writer<Rot13Writer<Vec<u8>>>,
    r: Result<usize, Infallible>,
)
    requires
        Rot13Writer::<Rot13Writer<Vec<u8>>>::write_outcome(pre, buf, post, r),
    ensures
        post.sink().sink()@ == pre.sink().sink()@ + buf,
        r matches Ok(n) && n == buf.len(),
{
    lemma_rot13_seq_involution(buf);
}

/// Writing a buffer through a writer into an empty vector, and then what that
/// vector holds through a writer into a second empty vector, leaves the
/// buffer as it was given in the second vector.
pub proof fn lemma_write_twice_restores(
    first_pre: Rot13Writer<Vec<u8>>,
    first_post: Rot13Writer<Vec<u8>>,
    first_r: Result<usize, Infallible>,
    second_pre: Rot13Writer<Vec<u8>>,
    second_post: Rot13Writer<Vec<u8>>,
    second_r: Result<usize, Infallible>,
    buf: Seq<u8>,
)
    requires
        first_pre.sink()@.len() == 0,
        second_pre.sink()@.len() == 0,
        Rot13Writer::<Vec<u8>>::write_outcome(first_pre, buf, first_post, first_r),
        Rot13Writer::<Vec<u8>>::write_outcome(
            second_pre,
            first_post.sink()@,
            second_post,
            second_r,
        ),
    ensures
        first_post.sink()@ == rot13_seq(buf),
        second_post.sink()@ == buf,
{
    lemma_rot13_seq_involution(buf);
}

} // verus!
