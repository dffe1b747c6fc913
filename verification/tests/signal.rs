//! Single-threaded exercises of the signal: every path here must complete
//! without blocking, so each test sends its notification before waiting.

use wait_notify::WaitNotify;

#[test]
fn notify_then_wait_returns() {
    let signal = WaitNotify::new();
    signal.notify();
    signal.wait();
}

#[test]
fn double_notify_then_single_wait() {
    let signal = WaitNotify::new();
    signal.notify();
    signal.notify();
    signal.wait();
}

#[test]
fn clone_shares_state_notify_via_clone() {
    let signal = WaitNotify::new();
    let duplicate = signal.clone();
    duplicate.notify();
    signal.wait();
}

#[test]
fn clone_shares_state_wait_via_clone() {
    let signal = WaitNotify::new();
    let duplicate = signal.clone();
    signal.notify();
    duplicate.wait();
}

#[test]
fn reusable_across_cycles() {
    let signal = WaitNotify::new();
    signal.notify();
    signal.wait();
    signal.notify();
    signal.wait();
}

#[test]
fn default_gives_working_signal() {
    let signal = WaitNotify::default();
    signal.notify();
    signal.wait();
}
