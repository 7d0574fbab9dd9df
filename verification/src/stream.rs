//! What the split asks of a duplex stream.
//!
//! Every method makes one attempt and may answer [`Outcome::Pending`]. A
//! pending operation is resumed by calling the same method again with the
//! same buffer. The context is handed through so that the stream can arrange
//! to have the polling task woken.
//!
//! Each method comes with a relation that says what one attempt may do. It
//! holds of everything unless a stream says otherwise, so that a stream
//! promises only what it chooses to, and proves what it promises.

use vstd::prelude::*;
use core::task::Context;
use crate::outcome::Outcome;

verus! {

/// A stream that can be read.
pub trait ReadEx: Send {
    /// Whether one attempt to read may take the stream from `self` to
    /// `after` and the buffer from `buf` to `filled`, and answer `outcome`.
    open spec fn reads(&self, after: &Self, buf: Seq<u8>, filled: Seq<u8>, outcome: Outcome<usize>) -> bool {
        true
    }

    /// Attempts to read into `buf`. A completed count of zero means that the
    /// stream is at its end.
    fn read2(&mut self, cx: &mut Context<'_>, buf: &mut [u8]) -> (outcome: Outcome<usize>)
        ensures
            final(buf)@.len() == old(buf)@.len(),
            old(self).reads(final(self), old(buf)@, final(buf)@, outcome),
    ;
}

/// A stream that can be written.
pub trait WriteEx: Send {
    /// Whether one attempt to write `buf` may take the stream from `self` to
    /// `after` and answer `outcome`.
    open spec fn writes(&self, after: &Self, buf: Seq<u8>, outcome: Outcome<usize>) -> bool {
        true
    }

    /// Whether one attempt to flush may take the stream from `self` to
    /// `after` and answer `outcome`.
    open spec fn flushes(&self, after: &Self, outcome: Outcome<()>) -> bool {
        true
    }

    /// Whether one attempt to close may take the stream from `self` to
    /// `after` and answer `outcome`.
    open spec fn closes(&self, after: &Self, outcome: Outcome<()>) -> bool {
        true
    }

    /// Attempts to write from `buf`. A completed count of zero means that
    /// nothing was accepted.
    fn write2(&mut self, cx: &mut Context<'_>, buf: &[u8]) -> (outcome: Outcome<usize>)
        ensures
            old(self).writes(final(self), buf@, outcome),
    ;

    /// Attempts to push buffered output to its destination.
    fn flush2(&mut self, cx: &mut Context<'_>) -> (outcome: Outcome<()>)
        ensures
            old(self).flushes(final(self), outcome),
    ;

    /// Attempts to close the stream.
    fn close2(&mut self, cx: &mut Context<'_>) -> (outcome: Outcome<()>)
        ensures
            old(self).closes(final(self), outcome),
    ;
}

} // verus!
