//! A blocking lock on a three-valued word: 0 free, 1 held with no waiters,
//! 2 held with waiters (possibly).
use crate::futex;
use std::sync::atomic::{AtomicU32, Ordering};
use vstd::prelude::*;

verus! {

/// How many times a contended acquisition re-reads the word before it blocks.
pub const SPIN_LIMIT: u32 = 100;

/// Relies on std::hint::spin_loop: a hint to the processor, with no effect on
/// any value.
pub assume_specification [std::hint::spin_loop] ();

/// The word is a valid state and says whether a thread holds the lock.
pub open spec fn mutex_wf(state: u32, holders: nat) -> bool {
    &&& state <= 2
    &&& holders <= 1
    &&& (state == 0 <==> holders == 0)
}

/// The fast path: compare-exchange from free to held-without-waiters. The new
/// word, and whether it won.
pub open spec fn fast_attempt(state: u32) -> (u32, bool) {
    if state == 0 { (1, true) } else { (state, false) }
}

/// The contended path: swap the word to held-with-waiters; it wins when the
/// word was free.
pub open spec fn contended_attempt(state: u32) -> (u32, bool) {
    (2, state == 0)
}

/// Release: swap the word to free; a waiter is woken when the word said
/// there might be one.
pub open spec fn release_step(state: u32) -> (u32, bool) {
    (0, state == 2)
}

/// While the word says held-without-waiters, a contended acquisition keeps
/// spinning (within `SPIN_LIMIT`) rather than blocking.
pub open spec fn spin_on(state: u32) -> bool {
    state == 1
}

/// The compare-exchange of the fast path: the one word from which it wins,
/// and the word it leaves.
pub fn fast_transition() -> (r: (u32, u32))
    ensures
        fast_attempt(r.0) == (r.1, true),
        forall|s: u32| #[trigger] fast_attempt(s).1 ==> s == r.0,
{
    (0, 1)
}

/// The word the contended path swaps in, and sleeps on.
pub fn contended_word() -> (r: u32)
    ensures
        forall|s: u32| #[trigger] contended_attempt(s).0 == r,
{
    2
}

/// The word a release swaps in.
pub fn released_word() -> (r: u32)
    ensures
        forall|s: u32| #[trigger] release_step(s).0 == r,
{
    0
}

/// Whether the spin goes on, from the word it read.
pub fn keeps_spinning(state: u32) -> (r: bool)
    ensures
        r == spin_on(state),
{
    state == 1
}

/// Whether the contended swap that returned `previous` took the lock.
pub fn contended_won(previous: u32) -> (r: bool)
    ensures
        r == contended_attempt(previous).1,
{
    previous == 0
}

/// Whether a release whose swap returned `previous` must wake a waiter.
pub fn release_wakes(previous: u32) -> (r: bool)
    ensures
        r == release_step(previous).1,
{
    previous == 2
}

/// The run of `events` from `s`, or `None` when one is not enabled there.
pub open spec fn counter_run(s: CounterRun, events: Seq<RunEvent>) -> Option<CounterRun>
    decreases events.len(),
{
    if events.len() == 0 {
        Some(s)
    } else if run_enabled(s, events[0]) {
        counter_run(run_step(s, events[0]), events.drop_first())
    } else {
        None
    }
}

/// A free lock around a zero counter.
pub open spec fn counter_run_new() -> CounterRun {
    CounterRun { word: 0, inside: None, counter: 0, writes: 0 }
}

/// No increment is lost, over whole runs: from a free lock and a zero
/// counter, whatever the threads do in whatever interleaving, the counter
/// equals the number of writes made, and the word agrees with who is inside.
pub proof fn lemma_counter_runs(s: CounterRun, events: Seq<RunEvent>)
    requires
        s == counter_run_new() || run_wf(s),
    ensures
        counter_run(s, events) matches Some(t) ==> run_wf(t) && t.counter == t.writes,
    decreases events.len(),
{
    if events.len() > 0 && run_enabled(s, events[0]) {
        lemma_counter_run(s, events[0]);
        lemma_counter_runs(run_step(s, events[0]), events.drop_first());
    }
}

/// Mutual exclusion: each step of the protocol keeps the word well formed,
/// an acquisition only wins while nobody holds the lock, and a well-formed
/// word has at most one holder.
pub proof fn lemma_mutex_exclusion(state: u32, holders: nat)
    requires
        mutex_wf(state, holders),
    ensures
        holders <= 1,
        fast_attempt(state).1 ==> holders == 0,
        contended_attempt(state).1 ==> holders == 0,
        mutex_wf(
            fast_attempt(state).0,
            holders + (if fast_attempt(state).1 { 1nat } else { 0nat }),
        ),
        mutex_wf(
            contended_attempt(state).0,
            holders + (if contended_attempt(state).1 { 1nat } else { 0nat }),
        ),
        holders == 1 ==> mutex_wf(release_step(state).0, 0),
{
}

/// A word held with waiters is never released silently: whoever releases it
/// wakes one of them, and a waiter that slept on it sees it change.
pub proof fn lemma_mutex_release_wakes(state: u32)
    ensures
        state == 2 ==> release_step(state).1,
        release_step(state).0 != 2,
{
}

/// Where the thread inside the critical section stands in an increment made
/// of a separate read and write of a shared counter.
pub enum Phase {
    Entered,
    Read(nat),
}

/// Threads incrementing a shared counter under the lock: the word, the thread
/// inside (if any) with its phase, the counter, and how many writes were made.
pub struct CounterRun {
    pub word: u32,
    pub inside: Option<(int, Phase)>,
    pub counter: nat,
    pub writes: nat,
}

/// What thread `t` does next.
pub enum RunEvent {
    FastAcquire(int),
    ContendedAcquire(int),
    Read(int),
    Write(int),
    Release(int),
}

/// Reading and writing the counter, and releasing, are done only by the
/// thread inside, in its phase; an acquisition is tried by any other thread.
pub open spec fn run_enabled(s: CounterRun, e: RunEvent) -> bool {
    match e {
        RunEvent::FastAcquire(t) | RunEvent::ContendedAcquire(t) => !(s.inside matches Some(
            p,
        ) && p.0 == t),
        RunEvent::Read(t) => s.inside == Some((t, Phase::Entered)),
        RunEvent::Write(t) => s.inside matches Some(p) && p.0 == t && p.1 is Read,
        RunEvent::Release(t) => s.inside == Some((t, Phase::Entered)),
    }
}

pub open spec fn run_step(s: CounterRun, e: RunEvent) -> CounterRun {
    match e {
        RunEvent::FastAcquire(t) => CounterRun {
            word: fast_attempt(s.word).0,
            inside: if fast_attempt(s.word).1 { Some((t, Phase::Entered)) } else { s.inside },
            ..s
        },
        RunEvent::ContendedAcquire(t) => CounterRun {
            word: contended_attempt(s.word).0,
            inside: if contended_attempt(s.word).1 { Some((t, Phase::Entered)) } else { s.inside },
            ..s
        },
        RunEvent::Read(t) => CounterRun { inside: Some((t, Phase::Read(s.counter))), ..s },
        RunEvent::Write(t) => match s.inside {
            Some((_, Phase::Read(r))) => CounterRun {
                inside: Some((t, Phase::Entered)),
                counter: r + 1,
                writes: s.writes + 1,
                ..s
            },
            _ => s,
        },
        RunEvent::Release(t) => CounterRun { word: release_step(s.word).0, inside: None, ..s },
    }
}

/// The word agrees with the thread inside, and what that thread read is still
/// the counter.
pub open spec fn run_wf(s: CounterRun) -> bool {
    &&& mutex_wf(s.word, if s.inside is Some { 1nat } else { 0nat })
    &&& s.counter == s.writes
    &&& match s.inside {
        Some((_, Phase::Read(r))) => r == s.counter,
        _ => true,
    }
}

/// No increment is lost: however the threads interleave, an acquisition
/// never wins while another thread is inside, and the counter always equals
/// the number of writes made, so N increments by each of k threads leave
/// N times k.
pub proof fn lemma_counter_run(s: CounterRun, e: RunEvent)
    requires
        run_wf(s),
        run_enabled(s, e),
    ensures
        run_wf(run_step(s, e)),
        s.inside is Some ==> !fast_attempt(s.word).1 && !contended_attempt(s.word).1,
        run_step(s, e).counter == run_step(s, e).writes,
{
}

pub struct Mutex {
    state: AtomicU32,
}

/// Evidence that its holder took `mutex`; `release` gives it back.
pub struct MutexGuard<'a> {
    mutex: &'a Mutex,
}

impl Mutex {
    /// A lock that nobody holds.
    pub fn new() -> (r: Mutex) {
        Mutex { state: AtomicU32::new(0) }
    }

    /// Acquisition without blocking: the fast compare-exchange, then, if it
    /// failed, a bounded spin while the word says held-without-waiters and one
    /// more compare-exchange.
    pub fn try_lock(&self) -> (g: Option<MutexGuard<'_>>)
        ensures
            g matches Some(h) ==> h.held() == self,
    {
        let (free, held) = fast_transition();
        if self.state.compare_exchange(free, held, Ordering::Acquire, Ordering::Relaxed).is_ok() {
            return Some(MutexGuard { mutex: self });
        }
        let mut spins: u32 = 0;
        while spins < SPIN_LIMIT
            decreases SPIN_LIMIT - spins,
        {
            if !keeps_spinning(self.state.load(Ordering::Relaxed)) {
                break;
            }
            spins = spins + 1;
            std::hint::spin_loop();
        }
        if self.state.compare_exchange(free, held, Ordering::Acquire, Ordering::Relaxed).is_ok() {
            Some(MutexGuard { mutex: self })
        } else {
            None
        }
    }

    /// One round of the blocking path: swap the word to held-with-waiters; if
    /// it was free the lock is taken, else the thread sleeps while the word
    /// stays 2 and the round reports failure.
    pub fn lock_round(&self) -> (g: Option<MutexGuard<'_>>)
        ensures
            g matches Some(h) ==> h.held() == self,
    {
        let waiting = contended_word();
        let previous = self.state.swap(waiting, Ordering::Acquire);
        if contended_won(previous) {
            Some(MutexGuard { mutex: self })
        } else {
            futex::wait(&self.state, waiting);
            None
        }
    }
}

impl<'a> MutexGuard<'a> {
    /// The lock this guard holds.
    pub closed spec fn held(self) -> &'a Mutex {
        self.mutex
    }

    /// The lock this guard holds.
    pub fn mutex(&self) -> (r: &'a Mutex)
        ensures
            r == self.held(),
    {
        self.mutex
    }

    /// Frees the word with release ordering, and wakes one sleeper when the
    /// word said there might be one.
    pub fn release(self) {
        let previous = self.mutex.state.swap(released_word(), Ordering::Release);
        if release_wakes(previous) {
            futex::wake_one(&self.mutex.state);
        }
    }
}

} // verus!
