//! The resumable operation cell of one handle.

use vstd::prelude::*;
use crate::lock::Grant;
use crate::lock::Lock;
use crate::protocol::abandon;
use crate::protocol::begin;
use crate::protocol::resumable;
use crate::protocol::settle;
use crate::protocol::stall;
use crate::protocol::Admission;
use crate::protocol::Op;
use crate::protocol::Phase;
use crate::protocol::Side;

verus! {

/// An operation in flight together with the access it runs under. The two are
/// stored and dropped as one.
struct InFlight {
    grant: Grant,
    op: Op,
}

/// Remembers, between the scheduling turns of one handle, the operation that
/// was begun and not yet completed, and the exclusive access granted for it.
pub struct Cell {
    waiting: bool,
    slot: Option<InFlight>,
}

impl View for Cell {
    type V = Phase;

    closed spec fn view(&self) -> Phase {
        match self.slot {
            Some(f) => Phase::OperationInFlight(f.op),
            None => if self.waiting {
                Phase::AcquiringLock
            } else {
                Phase::Idle
            },
        }
    }
}

impl Cell {
    #[verifier::type_invariant]
    spec fn well_formed(self) -> bool {
        self.slot matches Some(f) ==> f.grant@ == f.op.kind.side()
    }

    /// An empty cell.
    pub fn new() -> (cell: Cell)
        ensures
            cell@ == Phase::Idle,
    {
        Cell { waiting: false, slot: None }
    }

    /// Empties the slot and hands out what was in it.
    fn vacate(&mut self) -> (flight: Option<InFlight>)
        ensures
            flight == old(self).slot,
            final(self).slot is None,
            final(self).waiting == old(self).waiting,
        opens_invariants none
        no_unwind
    {
        let mut flight: Option<InFlight> = None;
        core::mem::swap(&mut self.slot, &mut flight);
        flight
    }

    /// Where the handle stands.
    pub fn phase(&self) -> (p: Phase)
        ensures
            p == self@,
        opens_invariants none
        no_unwind
    {
        match &self.slot {
            Some(f) => Phase::OperationInFlight(f.op),
            None => if self.waiting {
                Phase::AcquiringLock
            } else {
                Phase::Idle
            },
        }
    }

    /// Whether the handle may be polled with `op` as it stands: an operation
    /// in flight is resumed with the operation it was started with.
    pub fn admits(&self, op: Op) -> (yes: bool)
        ensures
            yes == resumable(self@, op),
    {
        match &self.slot {
            Some(f) => f.op == op,
            None => true,
        }
    }

    /// Opens a turn for `op`: resumes the operation in flight, or asks `lock`
    /// for access and, if it is granted, makes `op` the operation in flight.
    pub fn begin(&mut self, lock: &mut Lock, op: Op) -> (admission: Admission)
        requires
            resumable(old(self)@, op),
        ensures
            final(lock)@ == begin(old(lock)@, old(self)@, op).0,
            final(self)@ == begin(old(lock)@, old(self)@, op).1,
            admission == begin(old(lock)@, old(self)@, op).2,
    {
        if self.slot.is_some() {
            return Admission::Resumed;
        }
        match lock.try_acquire(op.kind.side()) {
            Some(grant) => {
                self.waiting = false;
                self.slot = Some(InFlight { grant, op });
                Admission::Started
            },
            None => {
                self.waiting = true;
                Admission::Suspended
            },
        }
    }

    /// Closes a turn in which the stream was asked. If the operation
    /// completed, the cell is emptied and access goes back to `lock`; the
    /// result then says whether the other owner has to be woken.
    pub fn settle(&mut self, lock: &mut Lock, completed: bool) -> (wake: bool)
        ensures
            final(lock)@ == settle(old(lock)@, old(self)@, completed).0,
            final(self)@ == settle(old(lock)@, old(self)@, completed).1,
            wake == settle(old(lock)@, old(self)@, completed).2,
    {
        proof {
            use_type_invariant(&*self);
        }
        if !completed {
            return false;
        }
        match self.vacate() {
            Some(f) => {
                self.waiting = false;
                lock.release(f.grant)
            },
            None => false,
        }
    }

    /// Notes a turn that ended before the lock could be consulted.
    pub fn stall(&mut self)
        ensures
            final(self)@ == stall(old(self)@),
    {
        if self.slot.is_none() {
            self.waiting = true;
        }
    }

    /// Gives up whatever the handle of `side` was doing: an operation in
    /// flight is discarded and its access released, a waiting handle stops
    /// waiting.
    pub fn abandon(&mut self, lock: &mut Lock, side: Side) -> (wake: bool)
        ensures
            final(lock)@ == abandon(old(lock)@, old(self)@, side).0,
            final(self)@ == abandon(old(lock)@, old(self)@, side).1,
            wake == abandon(old(lock)@, old(self)@, side).2,
        opens_invariants none
        no_unwind
    {
        proof {
            use_type_invariant(&*self);
        }
        match self.vacate() {
            Some(f) => {
                self.waiting = false;
                lock.release(f.grant)
            },
            None => {
                if self.waiting {
                    self.waiting = false;
                    lock.withdraw(side);
                }
                false
            },
        }
    }
}

} // verus!
