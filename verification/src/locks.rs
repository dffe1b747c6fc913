//! Trusted declarations for the lock and condition-variable primitives.
//!
//! vstd gives no specification to `std::sync::Mutex`, `MutexGuard` or
//! `Condvar`, so they are declared here and each call the signal makes goes
//! through a small trusted wrapper. The flag a held guard protects is given
//! the name `guard_flag`; the wrappers state how reading and writing through
//! the guard relate to it, and promise nothing about the flag across points
//! where the lock is not held.
//!
//! A poisoned lock (a thread terminated abnormally while holding it) is
//! treated as fatal: a half-updated flag cannot be trusted, so the wrappers
//! panic rather than proceed.

use vstd::prelude::*;

verus! {

/// Declares `std::sync::Mutex` to the verifier as an opaque type.
#[verifier::external_type_specification]
#[verifier::external_body]
#[verifier::reject_recursive_types(T)]
pub struct ExMutex<T: ?Sized>(std::sync::Mutex<T>);

/// Declares `std::sync::MutexGuard`, the witness that the lock is held, as
/// an opaque type.
#[verifier::external_type_specification]
#[verifier::external_body]
#[verifier::reject_recursive_types(T)]
pub struct ExMutexGuard<'a, T: ?Sized + 'a>(std::sync::MutexGuard<'a, T>);

/// Declares `std::sync::Condvar` as an opaque type.
#[verifier::external_type_specification]
#[verifier::external_body]
pub struct ExCondvar(std::sync::Condvar);

/// The value of the flag protected by a held guard. While the guard exists
/// the lock is held, so this value cannot change under it; writing through
/// the guard yields a guard with the written value.
pub uninterp spec fn guard_flag(guard: std::sync::MutexGuard<bool>) -> bool;

/// The value a mutex was created with. It is fixed at creation and says
/// nothing of the flag later — only [`guard_flag`] speaks of the flag while
/// a guard is held.
pub uninterp spec fn mutex_initial(mutex: std::sync::Mutex<bool>) -> bool;

/// Relies on `std::sync::Mutex::new`: wraps the flag in a fresh, unlocked
/// mutex holding `initial`. Nothing is promised of later lock acquisitions,
/// since other threads may change the flag at any time the lock is free.
#[verifier::external_body]
pub(crate) fn new_flag_mutex(initial: bool) -> (mutex: std::sync::Mutex<bool>)
    ensures
        mutex_initial(mutex) == initial,
{
    std::sync::Mutex::new(initial)
}

/// Relies on `std::sync::Condvar::new`: a fresh condition variable with no
/// blocked threads.
#[verifier::external_body]
pub(crate) fn new_condvar() -> (cond: std::sync::Condvar) {
    std::sync::Condvar::new()
}

/// Relies on `std::sync::Mutex::lock`: blocks until the lock is acquired.
/// The returned guard holds whatever flag value the last holder left, so
/// nothing is promised of it. Panics if the lock is poisoned.
#[verifier::external_body]
pub(crate) fn lock_flag<'a>(mutex: &'a std::sync::Mutex<bool>) -> (guard: std::sync::MutexGuard<
    'a,
    bool,
>) {
    mutex.lock().unwrap()
}

/// Relies on `MutexGuard`'s `Deref`: reads the flag the guard protects.
#[verifier::external_body]
pub(crate) fn read_flag(guard: &std::sync::MutexGuard<bool>) -> (pending: bool)
    ensures
        pending == guard_flag(*guard),
{
    **guard
}

/// Relies on `MutexGuard`'s `DerefMut`: stores `value` in the flag the guard
/// protects.
#[verifier::external_body]
pub(crate) fn write_flag(guard: &mut std::sync::MutexGuard<bool>, value: bool)
    ensures
        guard_flag(*final(guard)) == value,
{
    **guard = value;
}

/// Relies on `std::sync::Condvar::wait_while`: repeatedly releases the lock
/// and blocks until the predicate returns false, reacquiring the lock around
/// every check, then returns the held guard. The predicate is the verified
/// [`crate::signal::still_idle`], which is false exactly when the flag is
/// set, so the returned guard holds a set flag; spurious wakeups only cause
/// another check. Blocks indefinitely if the flag is never set. Panics if
/// the lock is poisoned.
#[verifier::external_body]
pub(crate) fn block_until_set<'a>(
    cond: &std::sync::Condvar,
    guard: std::sync::MutexGuard<'a, bool>,
) -> (reacquired: std::sync::MutexGuard<'a, bool>)
    ensures
        guard_flag(reacquired) == true,
{
    cond.wait_while(guard, |pending| crate::signal::still_idle(pending)).unwrap()
}

/// Relies on `std::sync::Condvar::notify_all`: wakes every thread currently
/// blocked on the condition variable.
#[verifier::external_body]
pub(crate) fn wake_all(cond: &std::sync::Condvar) {
    cond.notify_all();
}

} // verus!
