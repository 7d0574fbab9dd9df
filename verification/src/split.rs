//! The two handles and the operation that makes them.

use vstd::prelude::*;
use core::task::Context;
use futures::lock::BiLock;
use crate::cell::Cell;
use crate::outcome::Outcome;
use crate::protocol::resumable;
use crate::protocol::Op;
use crate::protocol::OpKind;
use crate::protocol::Phase;
use crate::protocol::Side;
use crate::runtime::context_of;
use crate::runtime::pair;
use crate::runtime::silent;
use crate::runtime::target;
use crate::runtime::try_lock;
use crate::shared::Shared;
use crate::stream::ReadEx;
use crate::stream::WriteEx;

verus! {

/// The readable half of a split stream.
///
/// Dropping the handle while a read is in flight discards the read and frees
/// the stream for the write handle. Nothing is promised about the position
/// at which the abandoned read left the stream.
#[verifier::reject_recursive_types(T)]
pub struct ReadHalf<T: Unpin> {
    handle: BiLock<Shared<T>>,
    cell: Cell,
}

impl<T: Unpin> View for ReadHalf<T> {
    type V = Phase;

    closed spec fn view(&self) -> Phase {
        self.cell@
    }
}

impl<T: Unpin> ReadHalf<T> {
    /// The half of the lock through which the handle reaches the stream.
    pub closed spec fn handle(&self) -> BiLock<Shared<T>> {
        self.handle
    }

    /// A read handle on `lock`, one half of the lock over the stream, with no
    /// operation in flight.
    pub fn new(lock: BiLock<Shared<T>>) -> (half: Self)
        ensures
            half@ == Phase::Idle,
            half.handle() == lock,
    {
        ReadHalf { handle: lock, cell: Cell::new() }
    }

    /// Where the handle stands.
    pub fn phase(&self) -> (p: Phase)
        ensures
            p == self@,
    {
        self.cell.phase()
    }

    /// Whether the handle may be polled with `op` as it stands.
    pub fn admits(&self, op: Op) -> (yes: bool)
        ensures
            yes == resumable(self@, op),
    {
        self.cell.admits(op)
    }
}

impl<T: ReadEx + Unpin> ReadHalf<T> {
    /// One scheduling turn of a read into `buf`.
    ///
    /// The turn ends pending, with the stream and the buffer untouched, while
    /// the write handle has an operation in flight. Otherwise the stream is
    /// asked once and its answer is returned as it is: a completed answer,
    /// a count of zero at the end of the stream included, ends the read and
    /// frees the stream for the write handle; a pending one keeps the read in
    /// flight and the stream reserved for it.
    ///
    /// A read that ended pending has to be resumed with the same buffer, left
    /// as it was.
    pub fn poll_read(&mut self, cx: &mut Context<'_>, buf: &mut [u8]) -> (outcome: Outcome<usize>)
        requires
            resumable(old(self)@, Op { kind: OpKind::Read, len: old(buf).len() }),
        ensures
            final(self).handle() == old(self).handle(),
            final(buf)@.len() == old(buf)@.len(),
            outcome.completed() ==> final(self)@ == Phase::Idle,
            outcome is Pending ==> {
                ||| final(self)@ == Phase::OperationInFlight(Op { kind: OpKind::Read, len: old(buf).len() })
                ||| old(self)@ !is OperationInFlight && final(self)@ == Phase::AcquiringLock
            },
            final(self)@ is AcquiringLock ==> outcome is Pending && final(buf)@ == old(buf)@,
    {
        match try_lock(&self.handle, cx) {
            None => {
                self.cell.stall();
                Outcome::Pending
            },
            Some(mut guard) => {
                let shared = target(&mut guard);
                shared.poll_read(&mut self.cell, cx, buf)
            },
        }
    }

}

impl<T: Unpin> ReadHalf<T> {
    /// Gives up the read in flight, or the wait for the stream, and reports
    /// whether that could be done in this turn. An idle handle has nothing to
    /// give up and is done at once. Any other handle has to reach the stream,
    /// which it cannot while the write handle is in the middle of a turn of
    /// its own.
    pub fn cancel(&mut self, cx: &mut Context<'_>) -> (done: bool)
        ensures
            final(self).handle() == old(self).handle(),
            old(self)@ is Idle ==> done,
            done ==> final(self)@ == Phase::Idle,
            !done ==> final(self)@ == old(self)@,
        opens_invariants none
        no_unwind
    {
        match self.cell.phase() {
            Phase::Idle => true,
            _ => match try_lock(&self.handle, cx) {
                None => false,
                Some(mut guard) => {
                    let shared = target(&mut guard);
                    shared.cancel(&mut self.cell, Side::Read);
                    true
                },
            },
        }
    }
}

impl<T: Unpin> Drop for ReadHalf<T> {
    /// Gives up what the handle was doing, as [`ReadHalf::cancel`] does, so
    /// that a read in flight does not keep the stream from the write handle.
    /// Should the write handle be in the middle of a turn of its own, on
    /// another thread, the stream cannot be reached and stays as it is.
    fn drop(&mut self)
        opens_invariants none
        no_unwind
    {
        let mut cx = context_of(silent());
        self.cancel(&mut cx);
    }
}

/// The writable half of a split stream.
///
/// Write, flush and close are taken one at a time: while one of them is in
/// flight, only that one may be polled. Dropping the handle while an
/// operation is in flight discards the operation and frees the stream for
/// the read handle.
#[verifier::reject_recursive_types(T)]
pub struct WriteHalf<T: Unpin> {
    handle: BiLock<Shared<T>>,
    cell: Cell,
}

impl<T: Unpin> View for WriteHalf<T> {
    type V = Phase;

    closed spec fn view(&self) -> Phase {
        self.cell@
    }
}

impl<T: Unpin> WriteHalf<T> {
    /// The half of the lock through which the handle reaches the stream.
    pub closed spec fn handle(&self) -> BiLock<Shared<T>> {
        self.handle
    }

    /// A write handle on `lock`, one half of the lock over the stream, with
    /// no operation in flight.
    pub fn new(lock: BiLock<Shared<T>>) -> (half: Self)
        ensures
            half@ == Phase::Idle,
            half.handle() == lock,
    {
        WriteHalf { handle: lock, cell: Cell::new() }
    }

    /// Where the handle stands.
    pub fn phase(&self) -> (p: Phase)
        ensures
            p == self@,
    {
        self.cell.phase()
    }

    /// Whether the handle may be polled with `op` as it stands.
    pub fn admits(&self, op: Op) -> (yes: bool)
        ensures
            yes == resumable(self@, op),
    {
        self.cell.admits(op)
    }
}

impl<T: WriteEx + Unpin> WriteHalf<T> {
    /// One scheduling turn of a write from `buf`.
    ///
    /// The turn ends pending, with the stream untouched, while the read
    /// handle has an operation in flight. Otherwise the stream is asked once
    /// and its answer is returned as it is: a completed answer ends the write
    /// and frees the stream for the read handle; a pending one keeps the
    /// write in flight and the stream reserved for it.
    pub fn poll_write(&mut self, cx: &mut Context<'_>, buf: &[u8]) -> (outcome: Outcome<usize>)
        requires
            resumable(old(self)@, Op { kind: OpKind::Write, len: buf.len() }),
        ensures
            final(self).handle() == old(self).handle(),
            outcome.completed() ==> final(self)@ == Phase::Idle,
            outcome is Pending ==> {
                ||| final(self)@ == Phase::OperationInFlight(Op { kind: OpKind::Write, len: buf.len() })
                ||| old(self)@ !is OperationInFlight && final(self)@ == Phase::AcquiringLock
            },
            final(self)@ is AcquiringLock ==> outcome is Pending,
    {
        match try_lock(&self.handle, cx) {
            None => {
                self.cell.stall();
                Outcome::Pending
            },
            Some(mut guard) => {
                let shared = target(&mut guard);
                shared.poll_write(&mut self.cell, cx, buf)
            },
        }
    }

    /// One scheduling turn of a flush, under the rules of
    /// [`WriteHalf::poll_write`].
    pub fn poll_flush(&mut self, cx: &mut Context<'_>) -> (outcome: Outcome<()>)
        requires
            resumable(old(self)@, Op { kind: OpKind::Flush, len: 0 }),
        ensures
            final(self).handle() == old(self).handle(),
            outcome.completed() ==> final(self)@ == Phase::Idle,
            outcome is Pending ==> {
                ||| final(self)@ == Phase::OperationInFlight(Op { kind: OpKind::Flush, len: 0 })
                ||| old(self)@ !is OperationInFlight && final(self)@ == Phase::AcquiringLock
            },
            final(self)@ is AcquiringLock ==> outcome is Pending,
    {
        match try_lock(&self.handle, cx) {
            None => {
                self.cell.stall();
                Outcome::Pending
            },
            Some(mut guard) => {
                let shared = target(&mut guard);
                shared.poll_flush(&mut self.cell, cx)
            },
        }
    }

    /// One scheduling turn of a close, under the rules of
    /// [`WriteHalf::poll_write`].
    pub fn poll_close(&mut self, cx: &mut Context<'_>) -> (outcome: Outcome<()>)
        requires
            resumable(old(self)@, Op { kind: OpKind::Close, len: 0 }),
        ensures
            final(self).handle() == old(self).handle(),
            outcome.completed() ==> final(self)@ == Phase::Idle,
            outcome is Pending ==> {
                ||| final(self)@ == Phase::OperationInFlight(Op { kind: OpKind::Close, len: 0 })
                ||| old(self)@ !is OperationInFlight && final(self)@ == Phase::AcquiringLock
            },
            final(self)@ is AcquiringLock ==> outcome is Pending,
    {
        match try_lock(&self.handle, cx) {
            None => {
                self.cell.stall();
                Outcome::Pending
            },
            Some(mut guard) => {
                let shared = target(&mut guard);
                shared.poll_close(&mut self.cell, cx)
            },
        }
    }

}

impl<T: Unpin> WriteHalf<T> {
    /// Gives up the operation in flight, or the wait for the stream, and
    /// reports whether that could be done in this turn. An idle handle has
    /// nothing to give up and is done at once. Any other handle has to reach
    /// the stream, which it cannot while the read handle is in the middle of
    /// a turn of its own.
    pub fn cancel(&mut self, cx: &mut Context<'_>) -> (done: bool)
        ensures
            final(self).handle() == old(self).handle(),
            old(self)@ is Idle ==> done,
            done ==> final(self)@ == Phase::Idle,
            !done ==> final(self)@ == old(self)@,
        opens_invariants none
        no_unwind
    {
        match self.cell.phase() {
            Phase::Idle => true,
            _ => match try_lock(&self.handle, cx) {
                None => false,
                Some(mut guard) => {
                    let shared = target(&mut guard);
                    shared.cancel(&mut self.cell, Side::Write);
                    true
                },
            },
        }
    }
}

impl<T: Unpin> Drop for WriteHalf<T> {
    /// Gives up what the handle was doing, as [`WriteHalf::cancel`] does, so
    /// that an operation in flight does not keep the stream from the read
    /// handle. Should the read handle be in the middle of a turn of its own,
    /// on another thread, the stream cannot be reached and stays as it is.
    fn drop(&mut self)
        opens_invariants none
        no_unwind
    {
        let mut cx = context_of(silent());
        self.cancel(&mut cx);
    }
}

/// Splits `stream` into a handle that reads and a handle that writes. The
/// stream is shared between them behind one lock. Nothing is started: both
/// handles are idle.
pub fn split<T>(stream: T) -> (halves: (ReadHalf<T>, WriteHalf<T>))
    where
        T: ReadEx + WriteEx + Unpin,
    ensures
        halves.0@ == Phase::Idle,
        halves.1@ == Phase::Idle,
{
    let (a, b) = pair(Shared::new(stream));
    (ReadHalf::new(a), WriteHalf::new(b))
}

/// Splitting as a method of every readable stream.
pub trait ReadExt2: ReadEx {
    /// Splits the stream as [`split`] does.
    fn split2(self) -> (halves: (ReadHalf<Self>, WriteHalf<Self>))
        where
            Self: Sized + WriteEx + Unpin,
        ensures
            halves.0@ == Phase::Idle,
            halves.1@ == Phase::Idle,
    {
        split(self)
    }
}

impl<R: ReadEx + ?Sized> ReadExt2 for R {
}

} // verus!
