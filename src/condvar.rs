//! A condition variable over `Mutex`: a generation counter that notifiers
//! bump, and a count of the threads waiting on it.
use crate::futex;
use crate::mutex::{Mutex, MutexGuard};
use std::sync::atomic::{AtomicU32, AtomicUsize, Ordering};
use vstd::prelude::*;

verus! {

/// The counter after a notify: one more, wrapping at the word's size.
pub open spec fn next_generation(counter: u32) -> u32 {
    ((counter + 1) % 0x1_0000_0000) as u32
}

/// The amount a notify adds to the counter.
pub fn generation_step() -> (r: u32)
    ensures
        forall|c: u32| #[trigger] next_generation(c) == (c + r) % 0x1_0000_0000,
{
    1
}

/// A notify acts only when the waiter count shows a waiter.
pub open spec fn notify_acts(waiters: usize) -> bool {
    waiters != 0
}

/// Whether a notify has anyone to wake, from the observed waiter count.
pub fn notify_needed(waiters: usize) -> (r: bool)
    ensures
        r == notify_acts(waiters),
{
    waiters != 0
}

/// No missed wake-up: a waiter registers itself before it reads the counter
/// and sleeps only while the counter still holds what it read. A notify that
/// sees the registration bumps the counter to a different value, so that sleep
/// either returns at once or is woken.
pub proof fn lemma_no_missed_wakeup(captured: u32, waiters: usize)
    requires
        waiters > 0,
    ensures
        notify_acts(waiters),
        next_generation(captured) != captured,
{
}

pub struct Condvar {
    counter: AtomicU32,
    waiters_count: AtomicUsize,
}

impl Condvar {
    /// A condition variable with no waiter.
    pub fn new() -> (r: Condvar) {
        Condvar { counter: AtomicU32::new(0), waiters_count: AtomicUsize::new(0) }
    }

    /// Wakes one waiter, if the waiter count shows any: bumps the counter first.
    pub fn notify_one(&self) {
        if notify_needed(self.waiters_count.load(Ordering::Relaxed)) {
            self.counter.fetch_add(generation_step(), Ordering::Relaxed);
            futex::wake_one(&self.counter);
        }
    }

    /// Wakes every waiter, if the waiter count shows any: bumps the counter first.
    pub fn notify_all(&self) {
        if notify_needed(self.waiters_count.load(Ordering::Relaxed)) {
            self.counter.fetch_add(generation_step(), Ordering::Relaxed);
            futex::wake_all(&self.counter);
        }
    }

    /// Registers the caller as a waiter, reads the counter, releases `guard`,
    /// sleeps while the counter holds what was read (or until a spurious
    /// return), and unregisters. Returns the mutex, for the caller to take
    /// again.
    pub fn wait<'a>(&self, guard: MutexGuard<'a>) -> (m: &'a Mutex)
        ensures
            m == guard.held(),
    {
        self.waiters_count.fetch_add(1, Ordering::Relaxed);
        let captured = self.counter.load(Ordering::Relaxed);
        let mutex = guard.mutex();
        guard.release();
        futex::wait(&self.counter, captured);
        self.waiters_count.fetch_sub(1, Ordering::Relaxed);
        mutex
    }
}

} // verus!
