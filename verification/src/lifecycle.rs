//! The process-lifecycle stop flag.
//!
//! One boolean flag, created at startup and cloned to every worker, is the
//! whole cancellation story: it is set once, never cleared, and checked
//! cooperatively by every loop. It is an explicit value passed to each
//! worker at spawn time rather than ambient process-wide state, so each
//! test can have a flag of its own.

use vstd::prelude::*;

verus! {

/// Relies on `Arc::new` and `AtomicBool::new`: a fresh shared flag,
/// initially lowered.
#[verifier::external_body]
fn new_shared_flag() -> std::sync::Arc<std::sync::atomic::AtomicBool> {
    std::sync::Arc::new(std::sync::atomic::AtomicBool::new(false))
}

/// Relies on `AtomicBool::load` (relaxed): the flag's value at some moment
/// during the call. Another thread may raise it at any time, so nothing is
/// promised of the value.
#[verifier::external_body]
fn load_flag(flag: &std::sync::Arc<std::sync::atomic::AtomicBool>) -> bool {
    flag.load(std::sync::atomic::Ordering::Relaxed)
}

/// Relies on `AtomicBool::store` (relaxed): raises the flag for every
/// holder of a clone.
#[verifier::external_body]
fn raise_flag(flag: &std::sync::Arc<std::sync::atomic::AtomicBool>) {
    flag.store(true, std::sync::atomic::Ordering::Relaxed)
}

/// The stop signal shared by every worker of the process. Clones observe
/// one and the same flag.
#[derive(Clone)]
pub struct StopFlag {
    inner: std::sync::Arc<std::sync::atomic::AtomicBool>,
}

/// A fresh, unraised stop flag, to be cloned to every worker at spawn time.
pub fn new_stop_flag() -> StopFlag {
    StopFlag { inner: new_shared_flag() }
}

/// Whether the stop signal has been raised, as observed at some moment
/// during the call; another thread may raise it concurrently.
pub fn is_stopped(flag: &StopFlag) -> bool {
    load_flag(&flag.inner)
}

/// Raise the stop signal for every worker sharing this flag. One-way:
/// the signal is never cleared.
pub fn stop_all(flag: &StopFlag) {
    raise_flag(&flag.inner)
}

} // verus!
