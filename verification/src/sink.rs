//! Writable byte sinks.
//!
//! A sink takes bytes through `write` and is asked to push them on through
//! `flush`. What a single call may do to a sink, and what it may return, is
//! given by a relation that each sink states for itself. A wrapper can then
//! say exactly how it used the sink it wraps, and a caller who knows the sink
//! knows what came of the call.

use core::convert::Infallible;
use vstd::prelude::*;

verus! {

/// Something that bytes can be written to.
pub trait ByteSink: Sized {
    /// What the sink reports when it cannot take bytes or cannot flush.
    type Error;

    /// Whether one call of `write` with `buf` may take the sink from `pre` to
    /// `post` and return `r`. A sink that states nothing allows every outcome.
    open spec fn write_outcome(
        pre: Self,
        buf: Seq<u8>,
        post: Self,
        r: Result<usize, Self::Error>,
    ) -> bool {
        true
    }

    /// Whether one call of `flush` may take the sink from `pre` to `post` and
    /// return `r`. A sink that states nothing allows every outcome.
    open spec fn flush_outcome(pre: Self, post: Self, r: Result<(), Self::Error>) -> bool {
        true
    }

    /// Offers `buf` to the sink, once. `Ok(n)` means that the first `n` bytes
    /// of `buf` were accepted and the rest was not, so `n` is never more than
    /// the buffer's length.
    fn write(&mut self, buf: &[u8]) -> (r: Result<usize, Self::Error>)
        ensures
            Self::write_outcome(*old(self), buf@, *final(self), r),
            r matches Ok(n) ==> n <= buf@.len(),
    ;

    /// Asks the sink to push on what it has accepted.
    fn flush(&mut self) -> (r: Result<(), Self::Error>)
        ensures
            Self::flush_outcome(*old(self), *final(self), r),
    ;
}

/// A vector collects what is written to it: every write appends the whole
/// buffer and succeeds, and there is nothing to flush.
impl ByteSink for Vec<u8> {
    type Error = Infallible;

    open spec fn write_outcome(
        pre: Self,
        buf: Seq<u8>,
        post: Self,
        r: Result<usize, Infallible>,
    ) -> bool {
        &&& post@ == pre@ + buf
        &&& r matches Ok(n)
        &&& n == buf.len()
    }

    open spec fn flush_outcome(pre: Self, post: Self, r: Result<(), Infallible>) -> bool {
        &&& post == pre
        &&& r is Ok
    }

    fn write(&mut self, buf: &[u8]) -> (r: Result<usize, Infallible>)
        ensures
            r matches Ok(n) && n == buf@.len(),
            final(self)@ == old(self)@ + buf@,
    {
        self.extend_from_slice(buf);
        assert(self@ =~= old(self)@ + buf@);
        Ok(buf.len())
    }

    fn flush(&mut self) -> (r: Result<(), Infallible>)
        ensures
            r is Ok,
            *final(self) == *old(self),
    {
        Ok(())
    }
}

/// An exclusive borrow of a sink is a sink: it does to the borrowed sink what
/// the sink would do to itself.
impl<S: ByteSink> ByteSink for &mut S {
    type Error = S::Error;

    open spec fn write_outcome(
        pre: Self,
        buf: Seq<u8>,
        post: Self,
        r: Result<usize, S::Error>,
    ) -> bool {
        S::write_outcome(*pre, buf, *post, r)
    }

    open spec fn flush_outcome(pre: Self, post: Self, r: Result<(), S::Error>) -> bool {
        S::flush_outcome(*pre, *post, r)
    }

    fn write(&mut self, buf: &[u8]) -> (r: Result<usize, S::Error>) {
        (**self).write(buf)
    }

    fn flush(&mut self) -> (r: Result<(), S::Error>) {
        (**self).flush()
    }
}

} // verus!
