//! The vocabulary of the split protocol and its transition rules.
//!
//! The rules are written as specification functions over plain values. The
//! executable lock and cell are proved against them, and the laws of the
//! protocol are proved about them.

use vstd::prelude::*;

verus! {

/// One of the two co-equal owners of the shared stream.
#[derive(Clone, Copy, Debug, PartialEq, Eq, Structural)]
pub enum Side {
    /// The owner that reads.
    Read,
    /// The owner that writes, flushes and closes.
    Write,
}

impl Side {
    pub open spec fn spec_other(self) -> Side {
        match self {
            Side::Read => Side::Write,
            Side::Write => Side::Read,
        }
    }

    /// The opposite owner.
    #[verifier::when_used_as_spec(spec_other)]
    pub fn other(self) -> (s: Side)
        ensures
            s == self.spec_other(),
        opens_invariants none
        no_unwind
    {
        match self {
            Side::Read => Side::Write,
            Side::Write => Side::Read,
        }
    }
}

/// What an operation asks of the stream.
#[derive(Clone, Copy, Debug, PartialEq, Eq, Structural)]
pub enum OpKind {
    Read,
    Write,
    Flush,
    Close,
}

impl OpKind {
    pub open spec fn spec_side(self) -> Side {
        match self {
            OpKind::Read => Side::Read,
            OpKind::Write => Side::Write,
            OpKind::Flush => Side::Write,
            OpKind::Close => Side::Write,
        }
    }

    /// The owner that issues operations of this kind.
    #[verifier::when_used_as_spec(spec_side)]
    pub fn side(self) -> (s: Side)
        ensures
            s == self.spec_side(),
    {
        match self {
            OpKind::Read => Side::Read,
            OpKind::Write => Side::Write,
            OpKind::Flush => Side::Write,
            OpKind::Close => Side::Write,
        }
    }
}

/// An operation as a handle remembers it: its kind and the length of the
/// buffer it is bound to (zero for flush and close).
#[derive(Clone, Copy, Debug, PartialEq, Eq, Structural)]
pub struct Op {
    pub kind: OpKind,
    pub len: usize,
}

/// Where a handle stands between two scheduling turns.
#[derive(Clone, Copy, Debug, PartialEq, Eq, Structural)]
pub enum Phase {
    /// No operation is in flight and none is waiting.
    Idle,
    /// The last turn asked for exclusive access and did not get it.
    AcquiringLock,
    /// Exclusive access is held and the operation awaits completion.
    OperationInFlight(Op),
}

/// What a handle has to do in this turn.
#[derive(Clone, Copy, Debug, PartialEq, Eq, Structural)]
pub enum Admission {
    /// Exclusive access was refused: report "not yet complete" and leave the
    /// stream alone.
    Suspended,
    /// Exclusive access was granted in this turn and a new operation begins.
    Started,
    /// The operation begun in an earlier turn goes on.
    Resumed,
}

/// The state of the exclusive shared handle.
pub struct LockState {
    /// The owner that holds exclusive access, if any.
    pub holder: Option<Side>,
    /// Whether the other owner asked in vain and is to be woken at release.
    pub parked: bool,
}

impl LockState {
    /// Nobody holds access and nobody waits.
    pub open spec fn free() -> LockState {
        LockState { holder: None, parked: false }
    }

    pub open spec fn held_by(self, side: Side) -> bool {
        self.holder == Some(side)
    }

    /// `side` asks for access. It is granted exactly when nobody holds it. An
    /// owner refused because the other one holds access is parked.
    pub open spec fn acquire(self, side: Side) -> (LockState, bool) {
        match self.holder {
            None => (LockState { holder: Some(side), parked: self.parked }, true),
            Some(h) => (LockState { holder: self.holder, parked: self.parked || h != side }, false),
        }
    }

    /// `side` gives access back. The result says whether a parked owner has to
    /// be woken. Releasing what one does not hold changes nothing.
    pub open spec fn release(self, side: Side) -> (LockState, bool) {
        if self.holder == Some(side) {
            (LockState::free(), self.parked)
        } else {
            (self, false)
        }
    }

    /// `side` no longer waits for access.
    pub open spec fn withdraw(self, side: Side) -> LockState {
        if self.holder == Some(side.other()) {
            LockState { holder: self.holder, parked: false }
        } else {
            self
        }
    }
}

/// Whether a handle in `phase` may be polled with `op`: an operation in flight
/// is resumed with the operation it was started with, nothing else.
pub open spec fn resumable(phase: Phase, op: Op) -> bool {
    phase matches Phase::OperationInFlight(current) ==> current == op
}

/// The first half of a turn: decide whether the stream may be touched.
///
/// A handle with an operation in flight goes on with it and keeps the lock as
/// it is. Any other handle asks for access: if granted, `op` becomes the
/// operation in flight; if refused, the handle waits and no operation exists.
pub open spec fn begin(lock: LockState, phase: Phase, op: Op) -> (LockState, Phase, Admission) {
    match phase {
        Phase::OperationInFlight(_) => (lock, phase, Admission::Resumed),
        _ => {
            let (next, granted) = lock.acquire(op.kind.side());
            if granted {
                (next, Phase::OperationInFlight(op), Admission::Started)
            } else {
                (next, Phase::AcquiringLock, Admission::Suspended)
            }
        },
    }
}

/// The second half of a turn, after the stream answered: an operation that
/// completed leaves the cell and gives access back in one step; one that did
/// not stays in flight and keeps access.
pub open spec fn settle(lock: LockState, phase: Phase, completed: bool) -> (LockState, Phase, bool) {
    match phase {
        Phase::OperationInFlight(op) if completed => {
            let (next, wake) = lock.release(op.kind.side());
            (next, Phase::Idle, wake)
        },
        _ => (lock, phase, false),
    }
}

/// Whether a turn for `op` ends without the stream being asked.
pub open spec fn refused(lock: LockState, phase: Phase, op: Op) -> bool {
    begin(lock, phase, op).2 is Suspended
}

/// A whole turn for `op`: the lock and the cell after it, given whether the
/// stream, if it was asked, completed the operation.
pub open spec fn turn(lock: LockState, phase: Phase, op: Op, completed: bool) -> (LockState, Phase) {
    let entered = begin(lock, phase, op);
    if entered.2 is Suspended {
        (entered.0, entered.1)
    } else {
        let settled = settle(entered.0, entered.1, completed);
        (settled.0, settled.1)
    }
}

/// Whether a turn for `op` ends with the lock released while the other
/// owner waits for it, so that this owner has to be woken.
pub open spec fn wakes(lock: LockState, phase: Phase, op: Op, completed: bool) -> bool {
    let entered = begin(lock, phase, op);
    !(entered.2 is Suspended) && settle(entered.0, entered.1, completed).2
}

/// A turn that could not even consult the lock: an idle handle now waits.
pub open spec fn stall(phase: Phase) -> Phase {
    match phase {
        Phase::Idle => Phase::AcquiringLock,
        _ => phase,
    }
}

/// The handle of `side` gives up: an operation in flight is discarded and its
/// access released, a waiting handle stops waiting.
pub open spec fn abandon(lock: LockState, phase: Phase, side: Side) -> (LockState, Phase, bool) {
    match phase {
        Phase::OperationInFlight(op) => {
            let (next, wake) = lock.release(op.kind.side());
            (next, Phase::Idle, wake)
        },
        Phase::AcquiringLock => (lock.withdraw(side), Phase::Idle, false),
        Phase::Idle => (lock, Phase::Idle, false),
    }
}

} // verus!
