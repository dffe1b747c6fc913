//! The shared signal and its handles.
//!
//! A [`WaitNotify`] is a handle to one shared signal: a pending flag behind a
//! mutex, paired with a condition variable. Cloning a handle shares the same
//! signal rather than creating a new one. The critical sections of `notify`
//! and `wait` — the only places the flag is read or written — are verified
//! against the state machine in [`crate::model`]: a notify leaves the flag
//! set and wakes all waiters exactly when it was clear, and a wait returns
//! only once it has observed the flag set, consuming it on the way out.

use vstd::prelude::*;

use crate::locks::block_until_set;
use crate::locks::guard_flag;
use crate::locks::lock_flag;
use crate::locks::mutex_initial;
use crate::locks::new_condvar;
use crate::locks::new_flag_mutex;
use crate::locks::read_flag;
use crate::locks::wake_all;
use crate::locks::write_flag;
use crate::model::after_consume;
use crate::model::after_notify;
use crate::model::wait_ready;

verus! {

/// The shared state of one signal: the pending flag under its mutex, and the
/// condition variable its waiters block on. The flag is read and written only
/// through a held guard.
struct SignalState {
    flag: std::sync::Mutex<bool>,
    cond: std::sync::Condvar,
}

/// A handle to a shared signal.
///
/// All handles cloned from a common origin refer to the same underlying
/// signal; the signal lives as long as its longest-lived handle. A fresh
/// signal starts idle (pending flag clear).
pub struct WaitNotify {
    state: std::sync::Arc<SignalState>,
}

impl WaitNotify {
    /// Whether this handle's signal was created idle: the mutex holding the
    /// pending flag was created with the flag clear. This speaks only of the
    /// signal's birth — what the flag is later is governed by the critical
    /// sections, under the lock.
    pub closed spec fn starts_idle(self) -> bool {
        mutex_initial(self.state.flag) == false
    }

    /// Creates a fresh signal in the idle state and returns its first handle.
    pub fn new() -> (signal: WaitNotify)
        ensures
            signal.starts_idle(),
    {
        WaitNotify {
            state: std::sync::Arc::new(
                SignalState { flag: new_flag_mutex(false), cond: new_condvar() },
            ),
        }
    }

    /// Sets the pending flag and wakes all blocked waiters.
    ///
    /// If the flag is already set, nothing happens: notifications do not
    /// accumulate beyond the single flag. The whole effect is the verified
    /// critical section [`notify_locked`], run under the signal's lock.
    pub fn notify(&self) {
        let state = &*self.state;
        let mut guard = lock_flag(&state.flag);
        let _woke = notify_locked(&mut guard, &state.cond);
    }

    /// Blocks until the pending flag is set, then consumes it.
    ///
    /// Returns only after a notification that no other wait has consumed;
    /// spurious wakeups are absorbed by re-checking the flag under the lock.
    /// The whole effect is the verified loop [`wait_locked`], run under the
    /// signal's lock. There is no timeout.
    pub fn wait(&self) {
        let state = &*self.state;
        let guard = lock_flag(&state.flag);
        let _consumed = wait_locked(guard, &state.cond);
    }
}

impl Clone for WaitNotify {
    /// Duplicates the handle: the clone refers to the same underlying signal,
    /// so a notify through either handle satisfies a wait through the other.
    fn clone(&self) -> (duplicate: WaitNotify)
        ensures
            duplicate == *self,
    {
        WaitNotify { state: self.state.clone() }
    }
}

impl Default for WaitNotify {
    /// Same as [`WaitNotify::new`]: a fresh signal in the idle state.
    fn default() -> (signal: WaitNotify)
        ensures
            signal.starts_idle(),
    {
        WaitNotify::new()
    }
}

/// The critical section of a notify, run with the lock held.
///
/// This function, not `notify` itself, carries the verified guarantee: the
/// flag the lock protects cannot be spoken of between critical sections,
/// since other handles change it freely while the lock is free. It leaves
/// the flag set — `after_notify` of whatever it was — and wakes all waiters
/// exactly when the flag was clear; a notify that finds the flag already set
/// is a no-op.
pub fn notify_locked(guard: &mut std::sync::MutexGuard<bool>, cond: &std::sync::Condvar) -> (woke:
    bool)
    ensures
        guard_flag(*final(guard)) == after_notify(guard_flag(*old(guard))),
        guard_flag(*final(guard)) == true,
        woke == !guard_flag(*old(guard)),
{
    let pending = read_flag(guard);
    if !pending {
        write_flag(guard, true);
        wake_all(cond);
        true
    } else {
        false
    }
}

/// The wait predicate: keep blocking while the flag is clear. Handed to the
/// condition variable's predicate wait; it never changes the flag.
pub(crate) fn still_idle(pending: &mut bool) -> (blocked: bool)
    ensures
        blocked == !wait_ready(*old(pending)),
        *final(pending) == *old(pending),
{
    !*pending
}

/// The critical section of a wait, run with the lock held; like
/// [`notify_locked`] it is what carries the verified guarantee for `wait`.
///
/// If the flag is clear, blocks (releasing the lock) until a notify sets it;
/// once the flag is observed set, consumes it. The returned guard holds
/// `after_consume` of the observed flag: the signal is idle again, so a later
/// wait is not ready. A wait that finds the flag already set returns without
/// blocking at all. If no notify ever sets the flag, this never returns.
pub fn wait_locked<'a>(
    guard: std::sync::MutexGuard<'a, bool>,
    cond: &std::sync::Condvar,
) -> (consumed: std::sync::MutexGuard<'a, bool>)
    ensures
        guard_flag(consumed) == after_consume(true),
        !wait_ready(guard_flag(consumed)),
{
    let pending = read_flag(&guard);
    let mut held = if !pending {
        block_until_set(cond, guard)
    } else {
        guard
    };
    assert(wait_ready(guard_flag(held)));
    write_flag(&mut held, false);
    held
}

} // verus!
