//! A lock taken by busy-waiting on one boolean flag.
use std::sync::atomic::{AtomicBool, Ordering};
use vstd::prelude::*;

verus! {

/// The flag after an acquisition attempt, and whether the attempt won:
/// the swap always leaves the flag set, and wins only on a clear flag.
pub open spec fn spin_attempt(locked: bool) -> (bool, bool) {
    (true, !locked)
}

/// The flag matches the number of threads inside the critical section.
pub open spec fn spin_wf(locked: bool, holders: nat) -> bool {
    holders == (if locked { 1nat } else { 0nat })
}

/// The flag an acquisition attempt swaps in.
pub fn taken_flag() -> (r: bool)
    ensures
        forall|locked: bool| #[trigger] spin_attempt(locked).0 == r,
{
    true
}

/// The flag a release stores: the one of a lock that nobody holds.
pub fn free_flag() -> (r: bool)
    ensures
        spin_wf(r, 0),
        !spin_wf(r, 1),
{
    false
}

/// Whether a swap that returned `previous` acquired the lock.
pub fn attempt_won(previous: bool) -> (r: bool)
    ensures
        r == spin_attempt(previous).1,
{
    !previous
}

/// Mutual exclusion: from a well-formed state an acquisition attempt and a
/// release by the holder lead to well-formed states, and a well-formed state
/// has at most one holder.
pub proof fn lemma_spin_exclusion(locked: bool, holders: nat)
    requires
        spin_wf(locked, holders),
    ensures
        holders <= 1,
        spin_wf(
            spin_attempt(locked).0,
            holders + (if spin_attempt(locked).1 { 1nat } else { 0nat }),
        ),
        spin_attempt(locked).1 ==> holders == 0,
        holders == 1 ==> spin_wf(false, (holders - 1) as nat),
{
}

/// Threads incrementing a shared counter under the spin lock, each increment
/// a separate read and write: the flag, the thread inside (if any) with what
/// it read once it has, the counter, and how many writes were made.
pub struct SpinRun {
    pub locked: bool,
    pub inside: Option<(int, Option<nat>)>,
    pub counter: nat,
    pub writes: nat,
}

/// What thread `t` does next.
pub enum SpinEvent {
    Attempt(int),
    Read(int),
    Write(int),
    Release(int),
}

pub open spec fn spin_run_enabled(s: SpinRun, e: SpinEvent) -> bool {
    match e {
        SpinEvent::Attempt(t) => !(s.inside matches Some(p) && p.0 == t),
        SpinEvent::Read(t) | SpinEvent::Release(t) => s.inside == Some((t, None::<nat>)),
        SpinEvent::Write(t) => s.inside matches Some(p) && p.0 == t && p.1 is Some,
    }
}

pub open spec fn spin_run_step(s: SpinRun, e: SpinEvent) -> SpinRun {
    match e {
        SpinEvent::Attempt(t) => SpinRun {
            locked: spin_attempt(s.locked).0,
            inside: if spin_attempt(s.locked).1 { Some((t, None)) } else { s.inside },
            ..s
        },
        SpinEvent::Read(t) => SpinRun { inside: Some((t, Some(s.counter))), ..s },
        SpinEvent::Write(t) => match s.inside {
            Some((_, Some(r))) => SpinRun {
                inside: Some((t, None)),
                counter: r + 1,
                writes: s.writes + 1,
                ..s
            },
            _ => s,
        },
        SpinEvent::Release(t) => SpinRun { locked: false, inside: None, ..s },
    }
}

pub open spec fn spin_run_wf(s: SpinRun) -> bool {
    &&& spin_wf(s.locked, if s.inside is Some { 1nat } else { 0nat })
    &&& s.counter == s.writes
    &&& match s.inside {
        Some((_, Some(r))) => r == s.counter,
        _ => true,
    }
}

/// The run of `events` from `s`, or `None` when one is not enabled there.
pub open spec fn spin_run(s: SpinRun, events: Seq<SpinEvent>) -> Option<SpinRun>
    decreases events.len(),
{
    if events.len() == 0 {
        Some(s)
    } else if spin_run_enabled(s, events[0]) {
        spin_run(spin_run_step(s, events[0]), events.drop_first())
    } else {
        None
    }
}

/// No increment is lost under the spin lock: from a clear flag and a zero
/// counter, however the threads interleave, an attempt never wins while
/// another thread is inside, and the counter equals the number of writes, so
/// N increments by each of k threads leave N times k.
pub proof fn lemma_spin_counter_runs(s: SpinRun, events: Seq<SpinEvent>)
    requires
        spin_run_wf(s),
    ensures
        spin_run(s, events) matches Some(t) ==> spin_run_wf(t) && t.counter == t.writes,
        s.inside is Some ==> !spin_attempt(s.locked).1,
    decreases events.len(),
{
    if events.len() > 0 && spin_run_enabled(s, events[0]) {
        lemma_spin_counter_runs(spin_run_step(s, events[0]), events.drop_first());
    }
}

pub struct SpinLock {
    locked: AtomicBool,
}

/// Evidence that its holder won the flag of `lock`; `release` gives it back.
pub struct Guard<'a> {
    lock: &'a SpinLock,
}

impl SpinLock {
    /// A lock that nobody holds.
    pub fn new() -> (r: SpinLock) {
        SpinLock { locked: AtomicBool::new(false) }
    }

    /// One acquisition attempt: swaps the flag to set, with acquire ordering,
    /// and returns a guard exactly when the flag was clear before.
    pub fn try_lock(&self) -> (g: Option<Guard<'_>>)
        ensures
            g matches Some(h) ==> h.held() == self,
    {
        let previous = self.locked.swap(taken_flag(), Ordering::Acquire);
        if attempt_won(previous) {
            Some(Guard { lock: self })
        } else {
            None
        }
    }
}

impl<'a> Guard<'a> {
    /// The lock this guard holds.
    pub closed spec fn held(self) -> &'a SpinLock {
        self.lock
    }

    /// Clears the flag with release ordering.
    pub fn release(self) {
        self.lock.locked.store(free_flag(), Ordering::Release);
    }
}

} // verus!
