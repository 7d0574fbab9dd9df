//! The two handles and their lock as one system, and what holds of every
//! schedule of turns that a scheduler can drive them through.
//!
//! A turn of the system is the turn of one handle, written with the same
//! transition rules that the executable handles are proved against. Beside
//! the states, the system keeps a log of every time the stream is touched.

use vstd::prelude::*;
use crate::outcome::Outcome;
use crate::protocol::abandon;
use crate::protocol::refused;
use crate::protocol::resumable;
use crate::protocol::stall;
use crate::protocol::turn;
use crate::protocol::LockState;
use crate::protocol::Op;
use crate::protocol::OpKind;
use crate::protocol::Phase;
use crate::protocol::Side;

verus! {

/// What the stream answers when it is asked.
pub enum Answer {
    /// Not yet complete.
    Pending,
    /// Completed, with this count.
    Done(nat),
    /// Completed with a failure.
    Failed,
}

impl Answer {
    pub open spec fn completed(self) -> bool {
        !(self is Pending)
    }
}

/// The answer that `outcome` stands for, where the operation counts bytes.
pub open spec fn counted(outcome: Outcome<usize>) -> Answer {
    match outcome {
        Outcome::Pending => Answer::Pending,
        Outcome::Done(n) => Answer::Done(n as nat),
        Outcome::Failed(_) => Answer::Failed,
    }
}

/// The answer that `outcome` stands for, where the operation counts nothing.
pub open spec fn plain(outcome: Outcome<()>) -> Answer {
    match outcome {
        Outcome::Pending => Answer::Pending,
        Outcome::Done(_) => Answer::Done(0),
        Outcome::Failed(_) => Answer::Failed,
    }
}

/// What a scheduler can make a handle do.
pub enum Step {
    /// The handle that issues `op` is polled with it and with the buffer
    /// `buf`. Should the stream be asked in this turn, it gives `answer` and
    /// leaves `filled` in the buffer.
    Poll { op: Op, buf: Seq<u8>, answer: Answer, filled: Seq<u8> },
    /// The handle of `side` is polled while the other handle is in the middle
    /// of a turn, and cannot even consult the lock.
    Stall { side: Side },
    /// The handle of `side` gives up what it was doing.
    Cancel { side: Side },
}

/// One touch of the stream.
pub enum Event {
    /// The stream was asked to carry out `op`, for the first time if `fresh`,
    /// gave `answer` and left `filled` in the buffer.
    Invoke { op: Op, fresh: bool, answer: Answer, filled: Seq<u8> },
    /// The operation `op` was discarded before it completed.
    Discard { op: Op },
}

impl Event {
    /// The operation that the event is about.
    pub open spec fn subject(self) -> Op {
        match self {
            Event::Invoke { op, .. } => op,
            Event::Discard { op } => op,
        }
    }

    /// The operation that the event leaves unfinished, if any.
    pub open spec fn leaves_open(self) -> Option<Op> {
        match self {
            Event::Invoke { op, answer, .. } => if answer.completed() {
                None
            } else {
                Some(op)
            },
            Event::Discard { .. } => None,
        }
    }

    /// Whether the event may follow a log that leaves `open` unfinished: an
    /// operation is begun only when none is unfinished, and only the
    /// unfinished one is resumed or discarded.
    pub open spec fn fits(self, open: Option<Op>) -> bool {
        match self {
            Event::Invoke { op, fresh, .. } => if fresh {
                open is None
            } else {
                open == Some(op)
            },
            Event::Discard { op } => open == Some(op),
        }
    }
}

/// The operation left unfinished by the first `j` events of `log`.
pub open spec fn open_before(log: Seq<Event>, j: int) -> Option<Op> {
    if j <= 0 {
        None
    } else {
        log[j - 1].leaves_open()
    }
}

/// The operation that the whole of `log` leaves unfinished.
pub open spec fn unfinished(log: Seq<Event>) -> Option<Op> {
    open_before(log, log.len() as int)
}

/// Every event of `log` fits what came before it.
pub open spec fn serialized(log: Seq<Event>) -> bool {
    forall|j: int| 0 <= j < log.len() ==> (#[trigger] log[j]).fits(open_before(log, j))
}

/// The log after a turn for `op` of a handle in `phase`: the stream is
/// touched, and the touch logged, exactly when the turn is not refused.
pub open spec fn logged(
    log: Seq<Event>,
    lock: LockState,
    phase: Phase,
    op: Op,
    answer: Answer,
    filled: Seq<u8>,
) -> Seq<Event> {
    if refused(lock, phase, op) {
        log
    } else {
        log.push(Event::Invoke { op, fresh: !(phase is OperationInFlight), answer, filled })
    }
}

/// The log after a handle in `phase` gave up: an operation in flight is
/// logged as discarded.
pub open spec fn discarded(log: Seq<Event>, phase: Phase) -> Seq<Event> {
    match phase {
        Phase::OperationInFlight(op) => log.push(Event::Discard { op }),
        _ => log,
    }
}

/// The lock, the cells of the two handles, and the log of the stream.
pub struct System {
    pub lock: LockState,
    pub reader: Phase,
    pub writer: Phase,
    pub log: Seq<Event>,
}

impl System {
    /// The system as `split` leaves it.
    pub open spec fn initial() -> System {
        System { lock: LockState::free(), reader: Phase::Idle, writer: Phase::Idle, log: Seq::empty() }
    }

    /// The cell of the handle of `side`.
    pub open spec fn cell(self, side: Side) -> Phase {
        match side {
            Side::Read => self.reader,
            Side::Write => self.writer,
        }
    }

    /// The system with `lock`, with `phase` in the cell of `side`, and with
    /// `log`.
    pub open spec fn with(self, side: Side, lock: LockState, phase: Phase, log: Seq<Event>) -> System {
        match side {
            Side::Read => System { lock, reader: phase, writer: self.writer, log },
            Side::Write => System { lock, reader: self.reader, writer: phase, log },
        }
    }

    /// Whether the handle of `side` has an operation in flight.
    pub open spec fn busy(self, side: Side) -> bool {
        self.cell(side) is OperationInFlight
    }

    /// The operation in flight, whichever handle has it.
    pub open spec fn in_flight(self) -> Option<Op> {
        match (self.reader, self.writer) {
            (Phase::OperationInFlight(op), _) => Some(op),
            (_, Phase::OperationInFlight(op)) => Some(op),
            _ => None,
        }
    }

    /// Whether the callers keep to their obligations in `step`: a handle is
    /// polled with the operation that its buffer gives, and one with an
    /// operation in flight is polled with that operation.
    pub open spec fn permits(self, step: Step) -> bool {
        match step {
            Step::Poll { op, buf, .. } => {
                &&& buf.len() == op.len
                &&& resumable(self.cell(op.kind.side()), op)
            },
            Step::Stall { .. } => true,
            Step::Cancel { .. } => true,
        }
    }

    /// Whether the stream is asked in `step`.
    pub open spec fn asks(self, step: Step) -> bool {
        match step {
            Step::Poll { op, .. } => !refused(self.lock, self.cell(op.kind.side()), op),
            Step::Stall { .. } => false,
            Step::Cancel { .. } => false,
        }
    }

    /// What the polled handle returns to its caller: the answer of the stream
    /// if the stream was asked, else "not yet complete".
    pub open spec fn reply(self, step: Step) -> Answer {
        match step {
            Step::Poll { answer, .. } => if self.asks(step) {
                answer
            } else {
                Answer::Pending
            },
            Step::Stall { .. } => Answer::Pending,
            Step::Cancel { .. } => Answer::Pending,
        }
    }

    /// The buffer of the caller as `step` leaves it: what the stream left in
    /// it if the stream was asked, else what the caller handed in.
    pub open spec fn leaves(self, step: Step) -> Seq<u8> {
        match step {
            Step::Poll { buf, filled, .. } => if self.asks(step) {
                filled
            } else {
                buf
            },
            Step::Stall { .. } => Seq::empty(),
            Step::Cancel { .. } => Seq::empty(),
        }
    }

    /// The system after `step`.
    pub open spec fn next(self, step: Step) -> System {
        match step {
            Step::Poll { op, answer, filled, .. } => {
                let side = op.kind.side();
                let after = turn(self.lock, self.cell(side), op, answer.completed());
                let log = logged(self.log, self.lock, self.cell(side), op, answer, filled);
                self.with(side, after.0, after.1, log)
            },
            Step::Stall { side } => self.with(side, self.lock, stall(self.cell(side)), self.log),
            Step::Cancel { side } => {
                let after = abandon(self.lock, self.cell(side), side);
                self.with(side, after.0, after.1, discarded(self.log, self.cell(side)))
            },
        }
    }

    /// The system after all of `steps`, in order.
    pub open spec fn run(self, steps: Seq<Step>) -> System
        decreases steps.len(),
    {
        if steps.len() == 0 {
            self
        } else {
            self.run(steps.drop_last()).next(steps.last())
        }
    }

    /// Whether the callers keep to their obligations all through `steps`.
    pub open spec fn feasible(self, steps: Seq<Step>) -> bool
        decreases steps.len(),
    {
        steps.len() == 0 || {
            &&& self.feasible(steps.drop_last())
            &&& self.run(steps.drop_last()).permits(steps.last())
        }
    }

    /// What every reachable system satisfies.
    pub open spec fn consistent(self) -> bool {
        &&& self.lock.parked ==> self.lock.holder is Some
        &&& self.lock.held_by(Side::Read) <==> self.busy(Side::Read)
        &&& self.lock.held_by(Side::Write) <==> self.busy(Side::Write)
        &&& self.reader matches Phase::OperationInFlight(op) ==> op.kind.side() == Side::Read
        &&& self.writer matches Phase::OperationInFlight(op) ==> op.kind.side() == Side::Write
        &&& unfinished(self.log) == self.in_flight()
        &&& serialized(self.log)
    }
}

/// A log stays serialized when an event that fits its end is appended.
proof fn lemma_append_fitting(log: Seq<Event>, event: Event)
    requires
        serialized(log),
        event.fits(unfinished(log)),
    ensures
        serialized(log.push(event)),
        unfinished(log.push(event)) == event.leaves_open(),
{
    let longer = log.push(event);
    assert forall|j: int| 0 <= j < longer.len() implies (#[trigger] longer[j]).fits(
        open_before(longer, j),
    ) by {
        if j < log.len() {
            assert(longer[j] == log[j]);
            assert(log[j].fits(open_before(log, j)));
            if j > 0 {
                assert(longer[j - 1] == log[j - 1]);
            }
        } else {
            if j > 0 {
                assert(longer[j - 1] == log[j - 1]);
            }
        }
    }
}

/// Consistency survives the poll of a handle that is polled as its state
/// permits.
proof fn lemma_poll_keeps_consistent(sys: System, op: Op, buf: Seq<u8>, answer: Answer, filled: Seq<u8>)
    requires
        sys.consistent(),
        sys.permits(Step::Poll { op, buf, answer, filled }),
    ensures
        sys.next(Step::Poll { op, buf, answer, filled }).consistent(),
{
    let step = Step::Poll { op, buf, answer, filled };
    let side = op.kind.side();
    if sys.asks(step) {
        let event = Event::Invoke { op, fresh: !sys.busy(side), answer, filled };
        lemma_append_fitting(sys.log, event);
        match side {
            Side::Read => {
                assert(sys.next(step).log == sys.log.push(event));
            },
            Side::Write => {
                assert(sys.next(step).log == sys.log.push(event));
            },
        }
    } else {
        match side {
            Side::Read => {
                assert(sys.next(step).log == sys.log);
            },
            Side::Write => {
                assert(sys.next(step).log == sys.log);
            },
        }
    }
}

/// Consistency survives a handle giving up.
proof fn lemma_cancel_keeps_consistent(sys: System, side: Side)
    requires
        sys.consistent(),
    ensures
        sys.next(Step::Cancel { side }).consistent(),
{
    let step = Step::Cancel { side };
    match sys.cell(side) {
        Phase::OperationInFlight(op) => {
            let event = Event::Discard { op };
            lemma_append_fitting(sys.log, event);
            match side {
                Side::Read => {
                    assert(sys.next(step).log == sys.log.push(event));
                },
                Side::Write => {
                    assert(sys.next(step).log == sys.log.push(event));
                },
            }
        },
        _ => {
            match side {
                Side::Read => {
                    assert(sys.next(step).log == sys.log);
                },
                Side::Write => {
                    assert(sys.next(step).log == sys.log);
                },
            }
        },
    }
}

/// Consistency survives every step in which the callers keep to their
/// obligations.
pub proof fn lemma_step_keeps_consistent(sys: System, step: Step)
    requires
        sys.consistent(),
        sys.permits(step),
    ensures
        sys.next(step).consistent(),
{
    match step {
        Step::Poll { op, buf, answer, filled } => lemma_poll_keeps_consistent(sys, op, buf, answer, filled),
        Step::Stall { side } => {
            match side {
                Side::Read => {},
                Side::Write => {},
            }
        },
        Step::Cancel { side } => lemma_cancel_keeps_consistent(sys, side),
    }
}

/// Every system reached from the initial one by a feasible schedule is
/// consistent.
pub proof fn lemma_reachable_is_consistent(steps: Seq<Step>)
    requires
        System::initial().feasible(steps),
    ensures
        System::initial().run(steps).consistent(),
    decreases steps.len(),
{
    if steps.len() > 0 {
        lemma_reachable_is_consistent(steps.drop_last());
        lemma_step_keeps_consistent(System::initial().run(steps.drop_last()), steps.last());
    }
}

/// Mutual exclusion: under every schedule the two handles never hold
/// exclusive access at the same time, and a handle has an operation in flight
/// exactly while the lock is held in its name.
pub proof fn law_mutual_exclusion(steps: Seq<Step>)
    requires
        System::initial().feasible(steps),
    ensures
        !(System::initial().run(steps).busy(Side::Read) && System::initial().run(steps).busy(Side::Write)),
        forall|side: Side|
            System::initial().run(steps).busy(side) <==> #[trigger] System::initial().run(steps).lock.held_by(
                side,
            ),
{
    lemma_reachable_is_consistent(steps);
    let sys = System::initial().run(steps);
    assert forall|side: Side| sys.busy(side) <==> #[trigger] sys.lock.held_by(side) by {
        match side {
            Side::Read => {},
            Side::Write => {},
        }
    }
}

/// Single dispatch: under every schedule the stream is asked to begin an
/// operation exactly when no operation is unfinished, and every other time it
/// is asked, it is asked to go on with the unfinished operation, bound to the
/// same buffer length. An operation is discarded only while it is unfinished.
pub proof fn law_single_dispatch(steps: Seq<Step>, j: int)
    requires
        System::initial().feasible(steps),
        0 <= j < System::initial().run(steps).log.len(),
    ensures
        ({
            let log = System::initial().run(steps).log;
            match log[j] {
                Event::Invoke { op, fresh, .. } => {
                    &&& fresh <==> open_before(log, j) is None
                    &&& !fresh ==> open_before(log, j) == Some(op)
                },
                Event::Discard { op } => open_before(log, j) == Some(op),
            }
        }),
{
    lemma_reachable_is_consistent(steps);
    let log = System::initial().run(steps).log;
    assert(log[j].fits(open_before(log, j)));
}

/// In a serialized log, events that follow one another without any of them
/// finishing an operation are all about one operation.
proof fn lemma_unbroken_stretch(log: Seq<Event>, i: int, j: int)
    requires
        serialized(log),
        0 <= i <= j < log.len(),
        forall|k: int| i <= k < j ==> (#[trigger] log[k]).leaves_open() is Some,
    ensures
        log[j].subject() == log[i].subject(),
    decreases j - i,
{
    if i < j {
        lemma_unbroken_stretch(log, i, j - 1);
        assert(log[j - 1].leaves_open() is Some);
        assert(log[j].fits(open_before(log, j)));
    }
}

/// No interleaving: when the stream is touched for one handle and later for
/// the other, an operation came to its end in between, by completing or by
/// being discarded. The turns of one operation are never mixed with those of
/// the other handle.
pub proof fn law_no_interleaving(steps: Seq<Step>, i: int, j: int)
    requires
        System::initial().feasible(steps),
        0 <= i < j < System::initial().run(steps).log.len(),
        System::initial().run(steps).log[i].subject().kind.side() != System::initial().run(
            steps,
        ).log[j].subject().kind.side(),
    ensures
        exists|k: int| i <= k < j && (#[trigger] System::initial().run(steps).log[k]).leaves_open() is None,
{
    lemma_reachable_is_consistent(steps);
    let log = System::initial().run(steps).log;
    if forall|k: int| i <= k < j ==> (#[trigger] log[k]).leaves_open() is Some {
        lemma_unbroken_stretch(log, i, j);
    }
}

/// A turn of a handle is a step of the system. What a turn does to the lock,
/// to the cell of the polled handle and to the log is what the step does to
/// the system, and the cell of the other handle stays as it is.
pub proof fn law_turn_is_step(sys: System, op: Op, buf: Seq<u8>, answer: Answer, filled: Seq<u8>)
    ensures
        ({
            let side = op.kind.side();
            let after = sys.next(Step::Poll { op, buf, answer, filled });
            &&& after.lock == turn(sys.lock, sys.cell(side), op, answer.completed()).0
            &&& after.cell(side) == turn(sys.lock, sys.cell(side), op, answer.completed()).1
            &&& after.cell(side.other()) == sys.cell(side.other())
            &&& after.log == logged(sys.log, sys.lock, sys.cell(side), op, answer, filled)
        }),
{
    match op.kind.side() {
        Side::Read => {},
        Side::Write => {},
    }
}

/// A handle that gives up is a step of the system, in the same way.
pub proof fn law_cancel_is_step(sys: System, side: Side)
    ensures
        ({
            let after = sys.next(Step::Cancel { side });
            &&& after.lock == abandon(sys.lock, sys.cell(side), side).0
            &&& after.cell(side) == abandon(sys.lock, sys.cell(side), side).1
            &&& after.cell(side.other()) == sys.cell(side.other())
            &&& after.log == discarded(sys.log, sys.cell(side))
        }),
{
    match side {
        Side::Read => {},
        Side::Write => {},
    }
}

/// End of stream: when the stream, asked to read, completes with a count of
/// zero, the read handle returns that completed count of zero, has no
/// operation in flight afterwards, and the lock is free.
pub proof fn law_end_of_stream(sys: System, buf: Seq<u8>, filled: Seq<u8>)
    requires
        buf.len() <= usize::MAX,
        sys.consistent(),
        sys.permits(
            Step::Poll {
                op: Op { kind: OpKind::Read, len: buf.len() as usize },
                buf,
                answer: Answer::Done(0),
                filled,
            },
        ),
        sys.asks(
            Step::Poll {
                op: Op { kind: OpKind::Read, len: buf.len() as usize },
                buf,
                answer: Answer::Done(0),
                filled,
            },
        ),
    ensures
        ({
            let step = Step::Poll {
                op: Op { kind: OpKind::Read, len: buf.len() as usize },
                buf,
                answer: Answer::Done(0),
                filled,
            };
            &&& sys.reply(step) == Answer::Done(0)
            &&& sys.leaves(step) == filled
            &&& sys.next(step).reader == Phase::Idle
            &&& sys.next(step).lock.holder is None
        }),
{
}

} // verus!
