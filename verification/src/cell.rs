//! The boundary to `std::sync`.
//!
//! Everything in this file is assumed, not proved: the types of the standard
//! library that the handle is built from, names for what a mutex and a held
//! lock stand for, and one contract for each call that the handle makes.

use crate::status::ThreadStatus;
use std::sync::Arc;
use std::sync::Condvar;
use std::sync::LockResult;
use std::sync::Mutex;
use std::sync::MutexGuard;
use std::sync::WaitTimeoutResult;
use std::time::Duration;
use vstd::prelude::*;

verus! {

/// `std::sync::Mutex`, as a value that nothing can be read from.
#[verifier::external_type_specification]
#[verifier::external_body]
#[verifier::reject_recursive_types(T)]
pub struct ExMutex<T: ?Sized>(std::sync::Mutex<T>);

/// `std::sync::MutexGuard`: a held lock.
#[verifier::external_type_specification]
#[verifier::external_body]
#[verifier::reject_recursive_types(T)]
pub struct ExMutexGuard<'a, T: ?Sized + 'a>(std::sync::MutexGuard<'a, T>);

/// `std::sync::Condvar`.
#[verifier::external_type_specification]
#[verifier::external_body]
pub struct ExCondvar(std::sync::Condvar);

/// `std::sync::PoisonError`: the error of a lock whose holder panicked.
#[verifier::external_type_specification]
#[verifier::external_body]
#[verifier::reject_recursive_types(T)]
pub struct ExPoisonError<T>(std::sync::PoisonError<T>);

/// `std::sync::WaitTimeoutResult`: whether a wait ran into its timeout. The
/// handle does not ask.
#[verifier::external_type_specification]
#[verifier::external_body]
pub struct ExWaitTimeoutResult(std::sync::WaitTimeoutResult);

/// One cell: the lock around the status, and the condition variable that
/// is only ever waited on with that lock.
pub type Shared = (Mutex<ThreadStatus>, Condvar);

/// The status that a held lock gives access to.
pub uninterp spec fn held(guard: MutexGuard<'_, ThreadStatus>) -> ThreadStatus;

/// The mutex that a guard was taken from.
pub uninterp spec fn origin(guard: MutexGuard<'_, ThreadStatus>) -> Mutex<ThreadStatus>;

/// The status that a mutex was created around.
pub uninterp spec fn created_with(mutex: Mutex<ThreadStatus>) -> ThreadStatus;

/// `Mutex::new`: a new, unlocked mutex around `status`.
#[verifier::external_body]
pub(crate) fn new_mutex(status: ThreadStatus) -> (mutex: Mutex<ThreadStatus>)
    ensures
        created_with(mutex) == status,
{
    Mutex::new(status)
}

/// `Condvar::new`. Nothing is claimed of the result.
pub assume_specification[ Condvar::new ]() -> (signal: Condvar);

/// `Condvar::notify_one`. Nothing is claimed of its effect: waking a waiter
/// changes no value that the contracts of this crate speak of.
pub assume_specification[ Condvar::notify_one ](signal: &Condvar);

/// `Arc::clone`: the copy points to the value that the original points to,
/// so what both hold is one and the same pair.
#[verifier::external_body]
pub(crate) fn share(shared: &Arc<Shared>) -> (copy: Arc<Shared>)
    ensures
        copy == *shared,
{
    Arc::clone(shared)
}

/// `Mutex::lock`: blocks until the lock is free and returns a guard of this
/// mutex, or the poison error if a holder of the lock panicked. Which status
/// the guard finds is open: other threads decide it. The standard library
/// leaves open what happens to a thread that asks for a lock it already
/// holds; no contract can rule that out, so the one caller asks first thing
/// in an operation, and no guard outlives the operation that took it.
#[verifier::external_body]
pub(crate) fn lock<'a>(mutex: &'a Mutex<ThreadStatus>) -> (result: LockResult<
    MutexGuard<'a, ThreadStatus>,
>)
    ensures
        result matches Ok(guard) ==> origin(guard) == *mutex,
{
    mutex.lock()
}

/// `Deref::deref` of `MutexGuard`: reads the status behind the lock.
#[verifier::external_body]
pub(crate) fn load(guard: &MutexGuard<'_, ThreadStatus>) -> (status: ThreadStatus)
    ensures
        status == held(*guard),
{
    **guard
}

/// `DerefMut::deref_mut` of `MutexGuard`: writes the status behind the lock.
/// The guard stays one of the same mutex, and the write cannot panic.
#[verifier::external_body]
pub(crate) fn store(guard: &mut MutexGuard<'_, ThreadStatus>, status: ThreadStatus)
    ensures
        held(*final(guard)) == status,
        origin(*final(guard)) == origin(*old(guard)),
    no_unwind
{
    **guard = status;
}

/// `Condvar::wait_timeout` on the condition variable of the pair: gives the
/// lock up, sleeps until woken or until about `millis` milliseconds have
/// passed, and takes the lock again. The guard that comes back is one of the
/// same mutex; the status it finds is open. The standard library may panic
/// where one condition variable is used with two mutexes, so the guard must
/// be one of the mutex that is stored beside it.
#[verifier::external_body]
pub(crate) fn park<'a>(
    shared: &'a Shared,
    guard: MutexGuard<'a, ThreadStatus>,
    millis: u64,
) -> (result: LockResult<(MutexGuard<'a, ThreadStatus>, WaitTimeoutResult)>)
    requires
        origin(guard) == shared.0,
    ensures
        result matches Ok(woken) ==> origin(woken.0) == origin(guard),
{
    shared.1.wait_timeout(guard, Duration::from_millis(millis))
}

} // verus!
