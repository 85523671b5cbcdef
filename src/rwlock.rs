//! A reader-writer lock on one word: twice the number of readers, plus one
//! while a writer waits; `u32::MAX` while a writer holds it. A second word
//! counts the wake-ups sent to writers.
use crate::futex;
use std::sync::atomic::{AtomicU32, Ordering};
use vstd::prelude::*;

verus! {

/// The word of a lock that a writer holds.
pub const WRITE_LOCKED: u32 = 0xffff_ffff;

/// The word encodes the threads inside: `readers` readers, or one writer.
pub open spec fn rw_wf(state: u32, readers: nat, writer: bool) -> bool {
    if writer {
        state == WRITE_LOCKED && readers == 0
    } else {
        state != WRITE_LOCKED && readers == state as nat / 2
    }
}

/// What a reader does on observing the word.
pub enum ReadAction {
    /// No writer holds or waits: try to move the word to the given value.
    Increment(u32),
    /// The reader count would come near the largest word: fatal.
    TooManyReaders,
    /// A writer holds or waits: sleep until the word changes.
    Wait,
}

pub open spec fn read_action(state: u32) -> ReadAction {
    if state % 2 == 0 {
        if state < WRITE_LOCKED - 2 {
            ReadAction::Increment((state + 2) as u32)
        } else {
            ReadAction::TooManyReaders
        }
    } else {
        ReadAction::Wait
    }
}

/// What a writer does on observing the word.
pub enum WriteAction {
    /// No reader is inside: try to move the word to `WRITE_LOCKED`.
    Lock,
    /// Readers are inside and no writer waits yet: try to set the waiting bit,
    /// moving the word to the given value.
    MarkWaiting(u32),
    /// The waiting bit is set or a writer holds the lock: sleep.
    Wait,
}

pub open spec fn write_action(state: u32) -> WriteAction {
    if state <= 1 {
        WriteAction::Lock
    } else if state % 2 == 0 {
        WriteAction::MarkWaiting((state + 1) as u32)
    } else {
        WriteAction::Wait
    }
}

/// A reader leaves: the new word, and whether a waiting writer is to be woken
/// (this was the last reader, and a writer waits).
pub open spec fn read_release(state: u32) -> (u32, bool) {
    ((state - 2) as u32, state == 3)
}

pub fn read_decision(state: u32) -> (r: ReadAction)
    ensures
        r == read_action(state),
{
    if state % 2 == 0 {
        if state < WRITE_LOCKED - 2 {
            ReadAction::Increment(state + 2)
        } else {
            ReadAction::TooManyReaders
        }
    } else {
        ReadAction::Wait
    }
}

pub fn write_decision(state: u32) -> (r: WriteAction)
    ensures
        r == write_action(state),
{
    if state <= 1 {
        WriteAction::Lock
    } else if state % 2 == 0 {
        WriteAction::MarkWaiting(state + 1)
    } else {
        WriteAction::Wait
    }
}

/// Whether a writer that found the lock taken sleeps, from the word it read
/// after the wake counter: it does unless the word lets it lock.
pub fn writer_should_sleep(state: u32) -> (r: bool)
    ensures
        r == !(write_action(state) is Lock),
{
    state >= 2
}

/// The amount a leaving reader takes off the word.
pub fn reader_unit() -> (r: u32)
    ensures
        forall|s: u32| s >= 2 ==> #[trigger] read_release(s).0 == s - r,
{
    2
}

/// The word a leaving writer stores: that of a lock with nobody inside.
pub fn unlocked_word() -> (r: u32)
    ensures
        rw_wf(r, 0, false),
        forall|s: RwRun| #[trigger] rw_run_step(s, RwEvent::WriteRelease).word == r,
{
    0
}

/// Whether a reader whose decrement returned `previous` must wake a writer.
pub fn read_release_wakes(previous: u32) -> (r: bool)
    ensures
        r == read_release(previous).1,
{
    previous == 3
}

/// Readers and a writer exclude each other: every step of the protocol from a
/// well-formed word leads to a well-formed word, a reader only enters while no
/// writer holds the lock, and a writer only while nobody is inside. The one
/// exception is the word `WRITE_LOCKED - 1` (the most readers the word can
/// count): setting the waiting bit there would yield the writer's word.
pub proof fn lemma_rw_exclusion(state: u32, readers: nat, writer: bool)
    requires
        rw_wf(state, readers, writer),
    ensures
        !(writer && readers > 0),
        read_action(state) matches ReadAction::Increment(next) ==> !writer && rw_wf(
            next,
            readers + 1,
            false,
        ),
        write_action(state) is Lock ==> !writer && readers == 0 && rw_wf(WRITE_LOCKED, 0, true),
        state < WRITE_LOCKED - 1 ==> (write_action(state) matches WriteAction::MarkWaiting(next)
            ==> !writer && rw_wf(next, readers, false)),
        !writer && readers > 0 ==> rw_wf(read_release(state).0, (readers - 1) as nat, false),
        writer ==> rw_wf(0, 0, false),
{
}

/// Once a writer waits, no new reader enters, and the last reader to leave
/// wakes that writer.
pub proof fn lemma_rw_writer_priority(state: u32, readers: nat)
    requires
        rw_wf(state, readers, false),
        state % 2 == 1,
    ensures
        read_action(state) is Wait,
        readers == 1 ==> read_release(state).1 && read_release(state).0 == 1,
        readers > 1 ==> !read_release(state).1 && read_release(state).0 % 2 == 1,
{
}

/// Threads sharing a counter under the lock: the word, the readers and the
/// writer inside, the counter, and how many increments writers made.
pub struct RwRun {
    pub word: u32,
    pub readers: nat,
    pub writer: bool,
    pub value: nat,
    pub increments: nat,
}

/// What a thread does next.
pub enum RwEvent {
    ReadAcquire,
    ReadRelease,
    WriteAcquire,
    MarkWaiting,
    Increment,
    WriteRelease,
}

/// Releases and increments come only from threads inside; the word stays
/// below the one count that the waiting bit cannot be added to.
pub open spec fn rw_run_enabled(s: RwRun, e: RwEvent) -> bool {
    &&& s.word != WRITE_LOCKED - 1
    &&& match e {
        RwEvent::ReadRelease => s.readers > 0,
        RwEvent::Increment | RwEvent::WriteRelease => s.writer,
        _ => true,
    }
}

pub open spec fn rw_run_step(s: RwRun, e: RwEvent) -> RwRun {
    match e {
        RwEvent::ReadAcquire => match read_action(s.word) {
            ReadAction::Increment(next) => RwRun { word: next, readers: s.readers + 1, ..s },
            _ => s,
        },
        RwEvent::ReadRelease => RwRun {
            word: read_release(s.word).0,
            readers: (s.readers - 1) as nat,
            ..s
        },
        RwEvent::WriteAcquire => if write_action(s.word) is Lock {
            RwRun { word: WRITE_LOCKED, writer: true, ..s }
        } else {
            s
        },
        RwEvent::MarkWaiting => match write_action(s.word) {
            WriteAction::MarkWaiting(next) => RwRun { word: next, ..s },
            _ => s,
        },
        RwEvent::Increment => RwRun { value: s.value + 1, increments: s.increments + 1, ..s },
        RwEvent::WriteRelease => RwRun { word: 0, writer: false, ..s },
    }
}

pub open spec fn rw_run_wf(s: RwRun) -> bool {
    &&& rw_wf(s.word, s.readers, s.writer)
    &&& s.value == s.increments
}

/// Readers see a steady, growing value: the value never decreases, it does
/// not change while any reader is inside, and it always equals the number of
/// increments made, so W writers making K increments each leave W times K.
pub proof fn lemma_rw_counter(s: RwRun, e: RwEvent)
    requires
        rw_run_wf(s),
        rw_run_enabled(s, e),
    ensures
        rw_run_wf(rw_run_step(s, e)),
        rw_run_step(s, e).value >= s.value,
        s.readers > 0 ==> rw_run_step(s, e).value == s.value,
{
}

/// The run of `events` from `s`, or `None` when one is not enabled there.
pub open spec fn rw_run(s: RwRun, events: Seq<RwEvent>) -> Option<RwRun>
    decreases events.len(),
{
    if events.len() == 0 {
        Some(s)
    } else if rw_run_enabled(s, events[0]) {
        rw_run(rw_run_step(s, events[0]), events.drop_first())
    } else {
        None
    }
}

/// A lock with nobody inside around a zero counter.
pub open spec fn rw_run_new() -> RwRun {
    RwRun { word: 0, readers: 0, writer: false, value: 0, increments: 0 }
}

/// Over whole runs from a fresh lock: readers and a writer are never inside
/// together, the value never goes below what it was at any earlier point,
/// and it equals the number of increments made.
pub proof fn lemma_rw_runs(s: RwRun, events: Seq<RwEvent>)
    requires
        s == rw_run_new() || rw_run_wf(s),
    ensures
        rw_run(s, events) matches Some(t) ==> rw_run_wf(t) && !(t.writer && t.readers > 0)
            && t.value >= s.value && t.value == t.increments,
    decreases events.len(),
{
    if events.len() > 0 && rw_run_enabled(s, events[0]) {
        lemma_rw_counter(s, events[0]);
        lemma_rw_runs(rw_run_step(s, events[0]), events.drop_first());
    }
}

pub struct RwLock {
    state: AtomicU32,
    write_wake_counter: AtomicU32,
}

/// Evidence of shared access to `rwlock`; `release` gives it back.
pub struct ReadGuard<'a> {
    rwlock: &'a RwLock,
}

/// Evidence of exclusive access to `rwlock`; `release` gives it back.
pub struct WriteGuard<'a> {
    rwlock: &'a RwLock,
}

/// The outcome of one round of a read acquisition.
pub enum ReadRound<'a> {
    Acquired(ReadGuard<'a>),
    /// Try again from this observed word.
    Retry(u32),
    TooManyReaders,
}

/// The outcome of one round of a write acquisition.
pub enum WriteRound<'a> {
    Acquired(WriteGuard<'a>),
    /// Try again from this observed word.
    Retry(u32),
}

impl RwLock {
    /// A lock with nobody inside.
    pub fn new() -> (r: RwLock) {
        RwLock { state: AtomicU32::new(0), write_wake_counter: AtomicU32::new(0) }
    }

    /// The word as it is now, to start an acquisition from.
    pub fn observe(&self) -> u32 {
        self.state.load(Ordering::Relaxed)
    }

    /// One round of a read acquisition from the observed word `state`: the
    /// reader enters only through `read_action`'s increment, reports the reader
    /// bound exactly when `read_action` does, and sleeps while a writer holds or
    /// waits.
    pub fn read_round(&self, state: u32) -> (r: ReadRound<'_>)
        ensures
            r matches ReadRound::Acquired(g) ==> g.held() == self && read_action(
                state,
            ) is Increment,
            r is TooManyReaders <==> read_action(state) is TooManyReaders,
            read_action(state) is Wait ==> r is Retry,
    {
        match read_decision(state) {
            ReadAction::Increment(next) => {
                match self.state.compare_exchange_weak(
                    state,
                    next,
                    Ordering::Acquire,
                    Ordering::Relaxed,
                ) {
                    Ok(_) => ReadRound::Acquired(ReadGuard { rwlock: self }),
                    Err(seen) => ReadRound::Retry(seen),
                }
            },
            ReadAction::TooManyReaders => ReadRound::TooManyReaders,
            ReadAction::Wait => {
                futex::wait(&self.state, state);
                ReadRound::Retry(self.state.load(Ordering::Relaxed))
            },
        }
    }

    /// One round of a write acquisition from the observed word `state`: the
    /// writer enters only when no reader is inside; otherwise it marks itself
    /// waiting and sleeps on the wake counter while the lock stays taken.
    pub fn write_round(&self, state: u32) -> (r: WriteRound<'_>)
        ensures
            r matches WriteRound::Acquired(g) ==> g.held() == self && write_action(state) is Lock,
            !(write_action(state) is Lock) ==> r is Retry,
    {
        match write_decision(state) {
            WriteAction::Lock => {
                match self.state.compare_exchange(
                    state,
                    WRITE_LOCKED,
                    Ordering::Acquire,
                    Ordering::Relaxed,
                ) {
                    Ok(_) => WriteRound::Acquired(WriteGuard { rwlock: self }),
                    Err(seen) => WriteRound::Retry(seen),
                }
            },
            WriteAction::MarkWaiting(next) => {
                match self.state.compare_exchange(
                    state,
                    next,
                    Ordering::Relaxed,
                    Ordering::Relaxed,
                ) {
                    Ok(_) => self.writer_sleep(),
                    Err(seen) => WriteRound::Retry(seen),
                }
            },
            WriteAction::Wait => self.writer_sleep(),
        }
    }

    /// Reads the wake counter before the word, so that a release between the
    /// two reads makes the sleep return at once.
    fn writer_sleep(&self) -> (r: WriteRound<'_>)
        ensures
            r is Retry,
    {
        let wakes = self.write_wake_counter.load(Ordering::Acquire);
        let state = self.state.load(Ordering::Relaxed);
        if writer_should_sleep(state) {
            futex::wait(&self.write_wake_counter, wakes);
            WriteRound::Retry(self.state.load(Ordering::Relaxed))
        } else {
            WriteRound::Retry(state)
        }
    }
}

impl<'a> ReadGuard<'a> {
    /// The lock this guard holds.
    pub closed spec fn held(self) -> &'a RwLock {
        self.rwlock
    }

    /// Takes this reader out of the word with release ordering; the last
    /// reader in front of a waiting writer wakes it.
    pub fn release(self) {
        let previous = self.rwlock.state.fetch_sub(reader_unit(), Ordering::Release);
        if read_release_wakes(previous) {
            self.rwlock.write_wake_counter.fetch_add(1, Ordering::Release);
            futex::wake_one(&self.rwlock.write_wake_counter);
        }
    }
}

impl<'a> WriteGuard<'a> {
    /// The lock this guard holds.
    pub closed spec fn held(self) -> &'a RwLock {
        self.rwlock
    }

    /// Frees the word with release ordering, then wakes one writer and every
    /// sleeping reader.
    pub fn release(self) {
        self.rwlock.state.store(unlocked_word(), Ordering::Release);
        self.rwlock.write_wake_counter.fetch_add(1, Ordering::Release);
        futex::wake_one(&self.rwlock.write_wake_counter);
        futex::wake_all(&self.rwlock.state);
    }
}

} // verus!
