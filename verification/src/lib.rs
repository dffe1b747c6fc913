//! A minimal cross-thread notification primitive.
//!
//! A [`WaitNotify`] handle shares a single "pending" flag, guarded by a mutex
//! and paired with a condition variable. `notify` sets the flag and wakes all
//! blocked waiters; `wait` blocks until the flag is set, then consumes it.
//! A notification sent before a wait is never lost, and one notification
//! satisfies exactly one wait.
//!
//! The `model` module states the signal's logical state machine and proves its
//! laws; the critical sections of `notify` and `wait` are verified against that
//! model, with only the lock and condition-variable primitives taken on trust.

mod locks;
mod model;
mod signal;

pub use signal::WaitNotify;
pub use signal::notify_locked;
pub use signal::wait_locked;

pub use model::SignalEvent;
pub use model::after_consume;
pub use model::after_notify;
pub use model::lemma_blocks_without_notify;
pub use model::lemma_no_lost_wakeup;
pub use model::lemma_notify_idempotent;
pub use model::lemma_single_consumption;
pub use model::run;
pub use model::step;
pub use model::wait_ready;
