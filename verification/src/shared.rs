//! The stream together with the lock that the two handles contend for.

use vstd::prelude::*;
use core::task::Context;
use core::task::Waker;
use crate::cell::Cell;
use crate::lock::Lock;
use crate::outcome::Outcome;
use crate::protocol::abandon;
use crate::protocol::refused;
use crate::protocol::resumable;
use crate::protocol::settle;
use crate::protocol::turn;
use crate::protocol::wakes;
use crate::protocol::Admission;
use crate::protocol::LockState;
use crate::protocol::Op;
use crate::protocol::OpKind;
use crate::protocol::Side;
use crate::runtime::duplicate;
use crate::schedule::counted;
use crate::schedule::discarded;
use crate::schedule::logged;
use crate::schedule::plain;
use crate::schedule::Event;
use crate::runtime::rouse;
use crate::runtime::waker_of;
use crate::stream::ReadEx;
use crate::stream::WriteEx;

verus! {

/// What both handles share: the stream, the lock over it, and the waker of
/// the handle that waits for the lock. Beside them stands, for proofs only,
/// the log of every touch of the stream.
pub struct Shared<T> {
    stream: T,
    lock: Lock,
    sleeper: Option<Waker>,
    log: Ghost<Seq<Event>>,
}

impl<T> Shared<T> {
    /// The state of the lock.
    pub closed spec fn lock(&self) -> LockState {
        self.lock@
    }

    /// The stream.
    pub closed spec fn stream(&self) -> T {
        self.stream
    }

    /// Every touch of the stream so far, in order.
    pub closed spec fn log(&self) -> Seq<Event> {
        self.log@
    }

    /// Whether the waker of a handle that waits for the lock is kept.
    pub closed spec fn sleeping(&self) -> bool {
        self.sleeper is Some
    }

    /// Wraps `stream`, untouched so far, with a free lock that nobody waits
    /// for.
    pub fn new(stream: T) -> (shared: Shared<T>)
        ensures
            shared.lock() == LockState::free(),
            shared.stream() == stream,
            !shared.sleeping(),
            shared.log() == Seq::<Event>::empty(),
    {
        Shared { stream, lock: Lock::new(), sleeper: None, log: Ghost(Seq::empty()) }
    }

    /// Keeps the waker of the polling task for the release of the lock, in
    /// place of the one kept before.
    fn park(&mut self, cx: &mut Context<'_>)
        ensures
            final(self).lock() == old(self).lock(),
            final(self).stream() == old(self).stream(),
            final(self).log() == old(self).log(),
            final(self).sleeping(),
    {
        self.sleeper = Some(duplicate(waker_of(cx)));
    }

    /// Wakes the handle that waited for the lock, if there is one. Its waker
    /// is used up: none is kept afterwards.
    fn notify(&mut self)
        ensures
            final(self).lock() == old(self).lock(),
            final(self).stream() == old(self).stream(),
            final(self).log() == old(self).log(),
            !final(self).sleeping(),
        opens_invariants none
        no_unwind
    {
        let mut sleeper: Option<Waker> = None;
        core::mem::swap(&mut self.sleeper, &mut sleeper);
        match sleeper {
            Some(waker) => rouse(waker),
            None => {},
        }
    }

    /// Closes a turn in which the stream answered `outcome`: the answer goes
    /// to the caller as it is. A completed operation leaves `cell` and gives
    /// the lock back, and a handle that waited for the lock is woken; a
    /// pending one stays in flight and keeps the lock.
    pub fn conclude<R>(&mut self, cell: &mut Cell, outcome: Outcome<R>) -> (returned: Outcome<R>)
        ensures
            returned == outcome,
            final(self).stream() == old(self).stream(),
            final(self).log() == old(self).log(),
            final(self).lock() == settle(old(self).lock(), old(cell)@, outcome.completed()).0,
            final(cell)@ == settle(old(self).lock(), old(cell)@, outcome.completed()).1,
            final(self).sleeping() == (old(self).sleeping() && !settle(
                old(self).lock(),
                old(cell)@,
                outcome.completed(),
            ).2),
    {
        let wake = cell.settle(&mut self.lock, outcome.completed());
        if wake {
            self.notify();
        }
        outcome
    }

    /// Gives up, for the handle of `side`, the operation in flight or the wait
    /// for the lock. An operation in flight is logged as discarded. A handle
    /// that waited for a lock released this way is woken. A waker is kept
    /// only as long as the lock says that a handle waits.
    pub fn cancel(&mut self, cell: &mut Cell, side: Side)
        ensures
            final(self).stream() == old(self).stream(),
            final(self).lock() == abandon(old(self).lock(), old(cell)@, side).0,
            final(cell)@ == abandon(old(self).lock(), old(cell)@, side).1,
            final(self).log() == discarded(old(self).log(), old(cell)@),
            final(self).sleeping() == (old(self).sleeping() && final(self).lock().parked),
        opens_invariants none
        no_unwind
    {
        self.log = Ghost(discarded(self.log@, cell@));
        let wake = cell.abandon(&mut self.lock, side);
        if wake {
            self.notify();
        } else if !self.lock.parked() {
            self.sleeper = None;
        }
    }
}

impl<T: ReadEx> Shared<T> {
    /// One turn of a read on behalf of the handle that owns `cell`.
    ///
    /// Without exclusive access the stream and the buffer are left alone, the
    /// waker of the polling task is kept, and the turn ends pending. With it,
    /// the stream makes one attempt, on the caller's buffer. The attempt is
    /// logged with its answer and with what it left in the buffer, the
    /// answer is returned as it is, and the turn is closed as
    /// [`Shared::conclude`] says.
    pub fn poll_read(&mut self, cell: &mut Cell, cx: &mut Context<'_>, buf: &mut [u8]) -> (outcome: Outcome<usize>)
        requires
            resumable(old(cell)@, Op { kind: OpKind::Read, len: old(buf).len() }),
        ensures
            final(buf)@.len() == old(buf)@.len(),
            ({
                let op = Op { kind: OpKind::Read, len: old(buf).len() };
                &&& final(self).lock() == turn(old(self).lock(), old(cell)@, op, outcome.completed()).0
                &&& final(cell)@ == turn(old(self).lock(), old(cell)@, op, outcome.completed()).1
                &&& final(self).log() == logged(
                    old(self).log(),
                    old(self).lock(),
                    old(cell)@,
                    op,
                    counted(outcome),
                    final(buf)@,
                )
                &&& final(self).sleeping() == if refused(old(self).lock(), old(cell)@, op) {
                    true
                } else {
                    old(self).sleeping() && !wakes(old(self).lock(), old(cell)@, op, outcome.completed())
                }
                &&& refused(old(self).lock(), old(cell)@, op) ==> {
                    &&& outcome is Pending
                    &&& final(self).stream() == old(self).stream()
                    &&& final(buf)@ == old(buf)@
                }
                &&& !refused(old(self).lock(), old(cell)@, op) ==> old(self).stream().reads(
                    &final(self).stream(),
                    old(buf)@,
                    final(buf)@,
                    outcome,
                )
            }),
    {
        let op = Op { kind: OpKind::Read, len: buf.len() };
        let admission = cell.begin(&mut self.lock, op);
        match admission {
            Admission::Suspended => {
                self.park(cx);
                Outcome::Pending
            },
            _ => {
                let answer = self.stream.read2(cx, buf);
                self.log = Ghost(
                    self.log@.push(
                        Event::Invoke {
                            op,
                            fresh: admission is Started,
                            answer: counted(answer),
                            filled: buf@,
                        },
                    ),
                );
                self.conclude(cell, answer)
            },
        }
    }
}

impl<T: WriteEx> Shared<T> {
    /// One turn of a write on behalf of the handle that owns `cell`.
    ///
    /// Without exclusive access the stream is left alone, the waker of the
    /// polling task is kept, and the turn ends pending. With it, the stream
    /// makes one attempt, on the caller's buffer. The attempt is logged with
    /// its answer, the answer is returned as it is, and the turn is closed
    /// as [`Shared::conclude`] says.
    pub fn poll_write(&mut self, cell: &mut Cell, cx: &mut Context<'_>, buf: &[u8]) -> (outcome: Outcome<usize>)
        requires
            resumable(old(cell)@, Op { kind: OpKind::Write, len: buf.len() }),
        ensures
            ({
                let op = Op { kind: OpKind::Write, len: buf.len() };
                &&& final(self).lock() == turn(old(self).lock(), old(cell)@, op, outcome.completed()).0
                &&& final(cell)@ == turn(old(self).lock(), old(cell)@, op, outcome.completed()).1
                &&& final(self).log() == logged(
                    old(self).log(),
                    old(self).lock(),
                    old(cell)@,
                    op,
                    counted(outcome),
                    buf@,
                )
                &&& final(self).sleeping() == if refused(old(self).lock(), old(cell)@, op) {
                    true
                } else {
                    old(self).sleeping() && !wakes(old(self).lock(), old(cell)@, op, outcome.completed())
                }
                &&& refused(old(self).lock(), old(cell)@, op) ==> {
                    &&& outcome is Pending
                    &&& final(self).stream() == old(self).stream()
                }
                &&& !refused(old(self).lock(), old(cell)@, op) ==> old(self).stream().writes(
                    &final(self).stream(),
                    buf@,
                    outcome,
                )
            }),
    {
        let op = Op { kind: OpKind::Write, len: buf.len() };
        let admission = cell.begin(&mut self.lock, op);
        match admission {
            Admission::Suspended => {
                self.park(cx);
                Outcome::Pending
            },
            _ => {
                let answer = self.stream.write2(cx, buf);
                self.log = Ghost(
                    self.log@.push(
                        Event::Invoke {
                            op,
                            fresh: admission is Started,
                            answer: counted(answer),
                            filled: buf@,
                        },
                    ),
                );
                self.conclude(cell, answer)
            },
        }
    }

    /// One turn of a flush on behalf of the handle that owns `cell`, under
    /// the same rules as [`Shared::poll_write`].
    pub fn poll_flush(&mut self, cell: &mut Cell, cx: &mut Context<'_>) -> (outcome: Outcome<()>)
        requires
            resumable(old(cell)@, Op { kind: OpKind::Flush, len: 0 }),
        ensures
            ({
                let op = Op { kind: OpKind::Flush, len: 0 };
                &&& final(self).lock() == turn(old(self).lock(), old(cell)@, op, outcome.completed()).0
                &&& final(cell)@ == turn(old(self).lock(), old(cell)@, op, outcome.completed()).1
                &&& final(self).log() == logged(
                    old(self).log(),
                    old(self).lock(),
                    old(cell)@,
                    op,
                    plain(outcome),
                    Seq::empty(),
                )
                &&& final(self).sleeping() == if refused(old(self).lock(), old(cell)@, op) {
                    true
                } else {
                    old(self).sleeping() && !wakes(old(self).lock(), old(cell)@, op, outcome.completed())
                }
                &&& refused(old(self).lock(), old(cell)@, op) ==> {
                    &&& outcome is Pending
                    &&& final(self).stream() == old(self).stream()
                }
                &&& !refused(old(self).lock(), old(cell)@, op) ==> old(self).stream().flushes(
                    &final(self).stream(),
                    outcome,
                )
            }),
    {
        let op = Op { kind: OpKind::Flush, len: 0 };
        let admission = cell.begin(&mut self.lock, op);
        match admission {
            Admission::Suspended => {
                self.park(cx);
                Outcome::Pending
            },
            _ => {
                let answer = self.stream.flush2(cx);
                self.log = Ghost(
                    self.log@.push(
                        Event::Invoke {
                            op,
                            fresh: admission is Started,
                            answer: plain(answer),
                            filled: Seq::empty(),
                        },
                    ),
                );
                self.conclude(cell, answer)
            },
        }
    }

    /// One turn of a close on behalf of the handle that owns `cell`, under
    /// the same rules as [`Shared::poll_write`].
    pub fn poll_close(&mut self, cell: &mut Cell, cx: &mut Context<'_>) -> (outcome: Outcome<()>)
        requires
            resumable(old(cell)@, Op { kind: OpKind::Close, len: 0 }),
        ensures
            ({
                let op = Op { kind: OpKind::Close, len: 0 };
                &&& final(self).lock() == turn(old(self).lock(), old(cell)@, op, outcome.completed()).0
                &&& final(cell)@ == turn(old(self).lock(), old(cell)@, op, outcome.completed()).1
                &&& final(self).log() == logged(
                    old(self).log(),
                    old(self).lock(),
                    old(cell)@,
                    op,
                    plain(outcome),
                    Seq::empty(),
                )
                &&& final(self).sleeping() == if refused(old(self).lock(), old(cell)@, op) {
                    true
                } else {
                    old(self).sleeping() && !wakes(old(self).lock(), old(cell)@, op, outcome.completed())
                }
                &&& refused(old(self).lock(), old(cell)@, op) ==> {
                    &&& outcome is Pending
                    &&& final(self).stream() == old(self).stream()
                }
                &&& !refused(old(self).lock(), old(cell)@, op) ==> old(self).stream().closes(
                    &final(self).stream(),
                    outcome,
                )
            }),
    {
        let op = Op { kind: OpKind::Close, len: 0 };
        let admission = cell.begin(&mut self.lock, op);
        match admission {
            Admission::Suspended => {
                self.park(cx);
                Outcome::Pending
            },
            _ => {
                let answer = self.stream.close2(cx);
                self.log = Ghost(
                    self.log@.push(
                        Event::Invoke {
                            op,
                            fresh: admission is Started,
                            answer: plain(answer),
                            filled: Seq::empty(),
                        },
                    ),
                );
                self.conclude(cell, answer)
            },
        }
    }
}

} // verus!
