//! What reaches the caller of the read handle when the stream hands out a
//! given sequence of bytes.

use vstd::prelude::*;
use crate::protocol::OpKind;
use crate::protocol::Phase;
use crate::protocol::Side;
use crate::schedule::Answer;
use crate::schedule::Event;
use crate::schedule::Step;
use crate::schedule::System;

verus! {

/// The number of bytes that the stream hands out in `event`.
pub open spec fn yielded(event: Event) -> nat {
    match event {
        Event::Invoke { op, answer: Answer::Done(n), .. } => if op.kind == OpKind::Read {
            n
        } else {
            0
        },
        _ => 0,
    }
}

/// The number of bytes that the stream has handed out over `log`.
pub open spec fn supplied(log: Seq<Event>) -> nat
    decreases log.len(),
{
    if log.len() == 0 {
        0
    } else {
        supplied(log.drop_last()) + yielded(log.last())
    }
}

/// Whether `event` is what a stream holding `data`, of which `before` bytes
/// are read already, may do. A completed read hands out no more than the
/// buffer takes and no more than is left, and nothing only if the buffer
/// takes nothing or nothing is left. What it hands out are the next bytes of
/// `data`, and they stand at the front of the buffer.
pub open spec fn draws(event: Event, data: Seq<u8>, before: nat) -> bool {
    match event {
        Event::Invoke { op, answer: Answer::Done(n), filled, .. } => op.kind == OpKind::Read ==> {
            &&& filled.len() == op.len
            &&& n <= op.len
            &&& before + n <= data.len()
            &&& n == 0 ==> op.len == 0 || before == data.len()
            &&& filled.subrange(0, n as int) == data.subrange(before as int, (before + n) as int)
        },
        _ => true,
    }
}

/// Whether, all through `log`, the stream reads `data` from front to back.
pub open spec fn reads_from(log: Seq<Event>, data: Seq<u8>) -> bool
    decreases log.len(),
{
    log.len() == 0 || {
        &&& reads_from(log.drop_last(), data)
        &&& draws(log.last(), data, supplied(log.drop_last()))
    }
}

/// The bytes that `step` puts before the caller of the read handle: when the
/// handle returns a completed count, that many bytes from the front of the
/// caller's buffer as the turn leaves it.
pub open spec fn portion(sys: System, step: Step) -> Seq<u8> {
    match step {
        Step::Poll { op, .. } => match sys.reply(step) {
            Answer::Done(n) => if op.kind == OpKind::Read && n <= sys.leaves(step).len() {
                sys.leaves(step).subrange(0, n as int)
            } else {
                Seq::empty()
            },
            _ => Seq::empty(),
        },
        Step::Stall { .. } => Seq::empty(),
        Step::Cancel { .. } => Seq::empty(),
    }
}

/// All that the caller of the read handle has received over `steps`, in the
/// order in which it came.
pub open spec fn received(steps: Seq<Step>) -> Seq<u8>
    decreases steps.len(),
{
    if steps.len() == 0 {
        Seq::empty()
    } else {
        received(steps.drop_last()) + portion(System::initial().run(steps.drop_last()), steps.last())
    }
}

/// One step adds to the log at most the event of the turn, and that event
/// holds what the stream answered and left in the buffer.
proof fn lemma_step_extends_log(sys: System, step: Step)
    ensures
        sys.next(step).log == sys.log || sys.next(step).log.drop_last() == sys.log,
        sys.next(step).log == sys.log ==> !sys.asks(step),
        sys.next(step).log != sys.log ==> sys.next(step).log.len() == sys.log.len() + 1,
        sys.asks(step) ==> {
            &&& step matches Step::Poll { op, answer, filled, .. }
            &&& sys.next(step).log.len() == sys.log.len() + 1
            &&& sys.next(step).log.last() matches Event::Invoke {
                op: logged,
                answer: given,
                filled: left,
                ..
            }
            &&& logged == op
            &&& given == answer
            &&& left == filled
        },
        !sys.asks(step) && sys.next(step).log != sys.log ==> sys.next(step).log.last() is Discard,
{
    match step {
        Step::Poll { op, answer, filled, .. } => {
            let event = Event::Invoke { op, fresh: !sys.busy(op.kind.side()), answer, filled };
            if sys.asks(step) {
                assert(sys.next(step).log == sys.log.push(event));
                assert(sys.log.push(event).drop_last() =~= sys.log);
            } else {
                assert(sys.next(step).log == sys.log);
            }
        },
        Step::Stall { side } => {
            match side {
                Side::Read => {},
                Side::Write => {},
            }
        },
        Step::Cancel { side } => {
            match sys.cell(side) {
                Phase::OperationInFlight(op) => {
                    let event = Event::Discard { op };
                    assert(sys.next(step).log == sys.log.push(event));
                    assert(sys.log.push(event).drop_last() =~= sys.log);
                },
                _ => {
                    assert(sys.next(step).log == sys.log);
                },
            }
        },
    }
}

/// Content preservation: when the stream reads `data` from front to back,
/// then, under every schedule, what the caller of the read handle has found
/// in its buffers is exactly the part of `data` that the stream has handed
/// out so far: the same bytes in the same order, none twice and none lost.
pub proof fn law_content_preserved(data: Seq<u8>, steps: Seq<Step>)
    requires
        System::initial().feasible(steps),
        reads_from(System::initial().run(steps).log, data),
    ensures
        supplied(System::initial().run(steps).log) <= data.len(),
        received(steps) == data.subrange(0, supplied(System::initial().run(steps).log) as int),
    decreases steps.len(),
{
    if steps.len() == 0 {
        assert(received(steps) =~= data.subrange(0, 0));
    } else {
        let before = System::initial().run(steps.drop_last());
        let step = steps.last();
        lemma_step_extends_log(before, step);
        law_content_preserved(data, steps.drop_last());
        let taken = supplied(before.log);
        let after = supplied(before.next(step).log);
        assert(taken <= after <= data.len());
        assert(portion(before, step) =~= data.subrange(taken as int, after as int));
        assert(received(steps) =~= data.subrange(0, after as int));
    }
}

/// Content preservation to the end: once the read handle has returned a
/// completed count of zero for a buffer that is not empty, its caller has
/// found the whole of `data` in its buffers.
pub proof fn law_content_complete(data: Seq<u8>, steps: Seq<Step>)
    requires
        System::initial().feasible(steps),
        reads_from(System::initial().run(steps).log, data),
        steps.len() > 0,
        steps.last() matches Step::Poll { op, .. } && op.kind == OpKind::Read && op.len > 0,
        System::initial().run(steps.drop_last()).reply(steps.last()) == Answer::Done(0),
    ensures
        received(steps) == data,
{
    let before = System::initial().run(steps.drop_last());
    lemma_step_extends_log(before, steps.last());
    law_content_preserved(data, steps);
    assert(data.subrange(0, data.len() as int) =~= data);
}

} // verus!
