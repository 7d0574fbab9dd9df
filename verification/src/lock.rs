//! The exclusive shared handle as plain state: who holds access, and whether
//! the other owner waits for it.

use vstd::prelude::*;
use crate::protocol::LockState;
use crate::protocol::Side;

verus! {

/// Proof of exclusive access, handed out by [`Lock::try_acquire`] and taken
/// back by [`Lock::release`]. It can be neither copied nor made elsewhere.
pub struct Grant {
    side: Side,
}

impl View for Grant {
    type V = Side;

    closed spec fn view(&self) -> Side {
        self.side
    }
}

impl Grant {
    /// The owner this grant was given to.
    pub fn side(&self) -> (s: Side)
        ensures
            s == self@,
    {
        self.side
    }
}

/// A lock between two owners. Asking never blocks and never fails: access is
/// either granted or the asking owner is noted as waiting.
pub struct Lock {
    holder: Option<Side>,
    parked: bool,
}

impl View for Lock {
    type V = LockState;

    closed spec fn view(&self) -> LockState {
        LockState { holder: self.holder, parked: self.parked }
    }
}

impl Lock {
    /// A lock that nobody holds.
    pub fn new() -> (lock: Lock)
        ensures
            lock@ == LockState::free(),
    {
        Lock { holder: None, parked: false }
    }

    /// The owner that holds access, if any.
    pub fn holder(&self) -> (h: Option<Side>)
        ensures
            h == self@.holder,
    {
        self.holder
    }

    /// Whether an owner waits to be woken at release.
    pub fn parked(&self) -> (p: bool)
        ensures
            p == self@.parked,
        opens_invariants none
        no_unwind
    {
        self.parked
    }

    /// Asks for exclusive access on behalf of `side`.
    pub fn try_acquire(&mut self, side: Side) -> (grant: Option<Grant>)
        ensures
            final(self)@ == old(self)@.acquire(side).0,
            grant is Some == old(self)@.acquire(side).1,
            grant matches Some(g) ==> g@ == side,
    {
        match self.holder {
            None => {
                self.holder = Some(side);
                Some(Grant { side })
            },
            Some(h) => {
                if h != side {
                    self.parked = true;
                }
                None
            },
        }
    }

    /// Takes a grant back. Returns whether a waiting owner has to be woken.
    pub fn release(&mut self, grant: Grant) -> (wake: bool)
        ensures
            final(self)@ == old(self)@.release(grant@).0,
            wake == old(self)@.release(grant@).1,
        opens_invariants none
        no_unwind
    {
        match self.holder {
            Some(h) => {
                if h == grant.side {
                    let wake = self.parked;
                    self.holder = None;
                    self.parked = false;
                    wake
                } else {
                    false
                }
            },
            None => false,
        }
    }

    /// Notes that `side` no longer waits.
    pub fn withdraw(&mut self, side: Side)
        ensures
            final(self)@ == old(self)@.withdraw(side),
        opens_invariants none
        no_unwind
    {
        match self.holder {
            Some(h) => {
                if h == side.other() {
                    self.parked = false;
                }
            },
            None => {},
        }
    }
}

} // verus!
