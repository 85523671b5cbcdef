//! The word-wait facility: block on a 32-bit word, wake the threads blocked on it.
use std::sync::atomic::AtomicU32;
use vstd::prelude::*;

verus! {

/// Relies on atomic_wait::wait: blocks while the word holds `value`, returns at
/// once otherwise, and may return spuriously. It changes no word.
#[verifier::external_body]
pub(crate) fn wait(atomic: &AtomicU32, value: u32) {
    atomic_wait::wait(atomic, value)
}

/// Relies on atomic_wait::wake_one: wakes one thread blocked on the word.
#[verifier::external_body]
pub(crate) fn wake_one(atomic: &AtomicU32) {
    atomic_wait::wake_one(atomic)
}

/// Relies on atomic_wait::wake_all: wakes every thread blocked on the word.
#[verifier::external_body]
pub(crate) fn wake_all(atomic: &AtomicU32) {
    atomic_wait::wake_all(atomic)
}

} // verus!
