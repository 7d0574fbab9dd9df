//! The pieces of the task system and of `futures` that the split rests on.
//!
//! Nothing in this module is proved. The types are opaque to the verifier and
//! the functions are believed to do what their comments say.

use vstd::prelude::*;
use core::task::Context;
use core::task::Poll;
use core::task::Waker;
use futures::lock::BiLock;
use futures::lock::BiLockGuard;
use crate::shared::Shared;

verus! {

/// `futures::lock::BiLock`: one of the two handles to a value behind a
/// two-owner mutex.
#[verifier::external_type_specification]
#[verifier::external_body]
#[verifier::reject_recursive_types(T)]
pub struct ExBiLock<T>(BiLock<T>);

/// `futures::lock::BiLockGuard`: access to the value behind a `BiLock` for as
/// long as the guard lives.
#[verifier::external_type_specification]
#[verifier::external_body]
#[verifier::reject_recursive_types(T)]
pub struct ExBiLockGuard<'a, T>(BiLockGuard<'a, T>);

/// `core::task::Context`: the context of the task that is being polled.
#[verifier::external_type_specification]
#[verifier::external_body]
pub struct ExContext<'a>(Context<'a>);

/// `core::task::Waker`: the means to have a task polled again.
#[verifier::external_type_specification]
#[verifier::external_body]
pub struct ExWaker(Waker);

/// `std::io::Error`: the failure of a stream operation.
#[verifier::external_type_specification]
#[verifier::external_body]
pub struct ExIoError(std::io::Error);

/// `BiLock::new`: puts `value` behind a new lock and returns its two handles.
/// Nothing is claimed of them.
#[verifier::external_body]
pub(crate) fn pair<T>(value: T) -> (halves: (BiLock<T>, BiLock<T>)) {
    BiLock::new(value)
}

/// `BiLock::poll_lock`: tries to take the lock without blocking. When the
/// other handle has it, the task of `cx` is registered to be woken at unlock
/// and `None` comes back. Nothing is claimed of which of the two happens.
///
/// The call is taken not to unwind. It panics only when the lock is polled
/// while a guard of the same half is alive, or by a third party at the same
/// time. The handles of this crate poll through `&mut self` and keep no
/// guard beyond a turn, which rules both out.
#[verifier::external_body]
pub(crate) fn try_lock<'a, T>(lock: &'a BiLock<T>, cx: &mut Context<'_>) -> (guard: Option<BiLockGuard<'a, T>>)
    opens_invariants none
    no_unwind
{
    match lock.poll_lock(cx) {
        Poll::Ready(guard) => Some(guard),
        Poll::Pending => None,
    }
}

/// `DerefMut::deref_mut` of `BiLockGuard`: the value behind the lock. Nothing
/// is claimed of its state.
///
/// The call is taken not to unwind. It panics only when the value has been
/// taken out of the lock by `BiLock::reunite`, which this crate never calls.
#[verifier::external_body]
pub(crate) fn target<'a, 'b, T: Unpin>(guard: &'b mut BiLockGuard<'a, Shared<T>>) -> (shared: &'b mut Shared<T>)
    opens_invariants none
    no_unwind
{
    &mut **guard
}

/// `Context::waker`: the waker of the task that is being polled.
#[verifier::external_body]
pub(crate) fn waker_of<'a>(cx: &'a Context<'_>) -> (waker: &'a Waker) {
    cx.waker()
}

/// `Waker::clone`: another waker for the same task.
#[verifier::external_body]
pub(crate) fn duplicate(waker: &Waker) -> (copy: Waker) {
    waker.clone()
}

/// `Waker::wake`: asks that the task be polled again.
///
/// The call is taken not to unwind. That rests on the waker: one that
/// panics when it is asked to wake its task is not supported here.
#[verifier::external_body]
pub(crate) fn rouse(waker: Waker)
    opens_invariants none
    no_unwind
{
    waker.wake()
}

/// `Waker::noop`: a waker that wakes nobody. It does not unwind.
#[verifier::external_body]
pub(crate) fn silent() -> (waker: &'static Waker)
    opens_invariants none
    no_unwind
{
    Waker::noop()
}

/// `Context::from_waker`: a context whose task is woken through `waker`. It
/// does not unwind.
#[verifier::external_body]
pub(crate) fn context_of<'a>(waker: &'a Waker) -> (cx: Context<'a>)
    opens_invariants none
    no_unwind
{
    Context::from_waker(waker)
}

} // verus!
