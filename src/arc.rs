//! The reference counts of a shared allocation: `strong` counts the owning
//! handles; `weak` counts the observing handles plus one unit held jointly by
//! all owners, or holds `WEAK_LOCKED` while an exclusivity check runs.
use std::sync::atomic::{AtomicUsize, Ordering};
use vstd::prelude::*;

verus! {

/// The weak count while an exclusivity check holds it.
pub const WEAK_LOCKED: usize = usize::MAX;

/// A count at or above this bound is fatal rather than allowed to wrap.
pub const COUNT_LIMIT: usize = usize::MAX / 2;

/// Relies on std::sync::atomic::fence: orders memory accesses, with no effect
/// on any value.
/// It panics on `Relaxed`, which no caller passes.
pub assume_specification [std::sync::atomic::fence] (order: Ordering)
    requires
        !(order is Relaxed),
;

/// What `downgrade` does on observing the weak count `n`.
pub enum DowngradeAction {
    /// An exclusivity check holds the count: spin and look again.
    Spin,
    /// The count is at the bound: fatal.
    Overflow,
    /// Try to move the count to the given value.
    Increment(usize),
}

pub open spec fn downgrade_action(n: usize) -> DowngradeAction {
    if n == WEAK_LOCKED {
        DowngradeAction::Spin
    } else if n > COUNT_LIMIT {
        DowngradeAction::Overflow
    } else {
        DowngradeAction::Increment((n + 1) as usize)
    }
}

/// What `upgrade` does on observing the strong count `n`.
pub enum UpgradeAction {
    /// No owner is left: the payload is gone and the upgrade fails.
    Expired,
    /// The count is at the bound: fatal.
    Overflow,
    /// Try to move the count to the given value.
    Increment(usize),
}

pub open spec fn upgrade_action(n: usize) -> UpgradeAction {
    if n == 0 {
        UpgradeAction::Expired
    } else if n > COUNT_LIMIT {
        UpgradeAction::Overflow
    } else {
        UpgradeAction::Increment((n + 1) as usize)
    }
}

pub fn downgrade_decision(n: usize) -> (r: DowngradeAction)
    ensures
        r == downgrade_action(n),
{
    if n == WEAK_LOCKED {
        DowngradeAction::Spin
    } else if n > COUNT_LIMIT {
        DowngradeAction::Overflow
    } else {
        DowngradeAction::Increment(n + 1)
    }
}

pub fn upgrade_decision(n: usize) -> (r: UpgradeAction)
    ensures
        r == upgrade_action(n),
{
    if n == 0 {
        UpgradeAction::Expired
    } else if n > COUNT_LIMIT {
        UpgradeAction::Overflow
    } else {
        UpgradeAction::Increment(n + 1)
    }
}

/// A decrement from `previous` releases the last unit of its count.
pub open spec fn releases_last(previous: nat) -> bool {
    previous == 1
}

/// Whether a decrement that returned `previous` released the last unit.
pub fn was_last(previous: usize) -> (r: bool)
    ensures
        r == releases_last(previous as nat),
{
    previous == 1
}

/// The amount by which a handle's coming or going moves a count.
pub fn count_unit() -> (r: usize)
    ensures
        forall|s: Lifecycle| #[trigger]
            step(s, Event::CloneArc).strong == s.strong + r as nat,
        forall|s: Lifecycle|
            s.strong > 1 ==> #[trigger] step(s, Event::DropArc).strong == s.strong - r as nat,
        forall|s: Lifecycle| #[trigger]
            step(s, Event::CloneWeak).weak == s.weak + r as nat,
        forall|s: Lifecycle|
            s.weak > 0 ==> #[trigger] step(s, Event::DropWeak).weak == s.weak - r as nat,
{
    1
}

/// The weak count that the exclusivity check locks from and restores, and
/// the sentinel it locks to: the count of owners with no observer.
pub fn exclusivity_lock() -> (r: (usize, usize))
    ensures
        forall|strong: nat| grants_exclusive(r.0 as nat, strong) <==> strong == 1,
        r.1 == WEAK_LOCKED,
{
    (1, WEAK_LOCKED)
}

/// Whether the exclusivity check grants access, from whether it locked the
/// weak count and the strong count it then read.
pub fn exclusive_granted(locked: bool, strong: usize) -> (r: bool)
    ensures
        r == (locked && grants_exclusive(1, strong as nat)),
{
    locked && strong == 1
}

/// Whether an increment that returned `previous` stayed under the bound.
pub fn within_limit(previous: usize) -> (r: bool)
    ensures
        r == (previous < COUNT_LIMIT),
{
    previous < COUNT_LIMIT
}

/// The lifetime of one shared allocation, as counted by the protocol.
pub struct Lifecycle {
    pub strong: nat,
    /// The weak word: `weak_handles`, plus one while any owner is left.
    pub weak: nat,
    pub weak_handles: nat,
    /// How many times the payload has been destroyed.
    pub payload_drops: nat,
    /// How many times the allocation has been freed.
    pub frees: nat,
}

/// What a handle can do to the allocation.
pub enum Event {
    CloneArc,
    DropArc,
    Downgrade,
    CloneWeak,
    DropWeak,
    Upgrade,
}

/// The state right after `Arc::new`.
pub open spec fn lifecycle_new() -> Lifecycle {
    Lifecycle { strong: 1, weak: 1, weak_handles: 0, payload_drops: 0, frees: 0 }
}

/// An owning event needs an owner, an observing event an observer.
pub open spec fn enabled(s: Lifecycle, e: Event) -> bool {
    match e {
        Event::CloneArc | Event::DropArc | Event::Downgrade => s.strong > 0,
        Event::CloneWeak | Event::DropWeak | Event::Upgrade => s.weak_handles > 0,
    }
}

/// Dropping one unit of the weak word; the allocation goes with the last.
pub open spec fn release_weak_unit(s: Lifecycle) -> Lifecycle {
    Lifecycle {
        weak: (s.weak - 1) as nat,
        frees: if releases_last(s.weak) { s.frees + 1 } else { s.frees },
        ..s
    }
}

pub open spec fn step(s: Lifecycle, e: Event) -> Lifecycle {
    match e {
        Event::CloneArc => Lifecycle { strong: s.strong + 1, ..s },
        Event::DropArc => if releases_last(s.strong) {
            release_weak_unit(Lifecycle { strong: 0, payload_drops: s.payload_drops + 1, ..s })
        } else {
            Lifecycle { strong: (s.strong - 1) as nat, ..s }
        },
        Event::Downgrade | Event::CloneWeak => Lifecycle {
            weak: s.weak + 1,
            weak_handles: s.weak_handles + 1,
            ..s
        },
        Event::DropWeak => release_weak_unit(
            Lifecycle { weak_handles: (s.weak_handles - 1) as nat, ..s },
        ),
        Event::Upgrade => if s.strong == 0 {
            s
        } else {
            Lifecycle { strong: s.strong + 1, ..s }
        },
    }
}

/// The counts agree with the handles, the payload is destroyed exactly when no
/// owner is left, and the allocation exactly when no handle is left.
pub open spec fn lifecycle_wf(s: Lifecycle) -> bool {
    &&& s.weak == s.weak_handles + (if s.strong > 0 { 1nat } else { 0nat })
    &&& s.payload_drops == (if s.strong == 0 { 1nat } else { 0nat })
    &&& s.frees == (if s.weak == 0 { 1nat } else { 0nat })
}

/// Whether an exclusivity check that locked the weak word from `weak` and then
/// read `strong` grants access.
pub open spec fn grants_exclusive(weak: nat, strong: nat) -> bool {
    weak == 1 && strong == 1
}

/// A new allocation is well formed.
pub proof fn lemma_lifecycle_new()
    ensures
        lifecycle_wf(lifecycle_new()),
{
}

/// Whatever the handles do, in any order, the payload is destroyed once and
/// only when the last owner goes, and the allocation is freed once and only
/// when the last handle of either kind goes; an upgrade fails exactly when no
/// owner is left.
pub proof fn lemma_lifecycle_step(s: Lifecycle, e: Event)
    requires
        lifecycle_wf(s),
        enabled(s, e),
    ensures
        lifecycle_wf(step(s, e)),
        step(s, e).payload_drops <= 1,
        step(s, e).frees <= 1,
        e is Upgrade ==> (step(s, e).strong == 0 <==> s.strong == 0),
        s.strong == 0 ==> step(s, e).strong == 0,
{
}

/// The state after the handles do `events` in order from `s`, or `None` when
/// one of them has no handle to come from.
pub open spec fn lifecycle_run(s: Lifecycle, events: Seq<Event>) -> Option<Lifecycle>
    decreases events.len(),
{
    if events.len() == 0 {
        Some(s)
    } else if enabled(s, events[0]) {
        lifecycle_run(step(s, events[0]), events.drop_first())
    } else {
        None
    }
}

/// From a well-formed state, every run of events the handles can do stays
/// well formed; once no owner is left none comes back, so every later upgrade
/// fails and the destroyed payload is never reached again.
pub proof fn lemma_lifecycle_run(s: Lifecycle, events: Seq<Event>)
    requires
        lifecycle_wf(s),
    ensures
        lifecycle_run(s, events) matches Some(t) ==> lifecycle_wf(t) && t.payload_drops <= 1
            && t.frees <= 1 && (s.strong == 0 ==> t.strong == 0),
    decreases events.len(),
{
    if events.len() > 0 && enabled(s, events[0]) {
        lemma_lifecycle_step(s, events[0]);
        lemma_lifecycle_run(step(s, events[0]), events.drop_first());
    }
}

/// Whatever the handles of a new allocation do, in any order: its payload is
/// destroyed at most once, exactly once when no owner is left, and the
/// allocation freed exactly once when no handle is left.
pub proof fn lemma_lifecycle_from_new(events: Seq<Event>)
    ensures
        lifecycle_run(lifecycle_new(), events) matches Some(t) ==> lifecycle_wf(t)
            && t.payload_drops <= 1 && (t.strong == 0 <==> t.payload_drops == 1) && (t.strong
            == 0 && t.weak_handles == 0 ==> t.frees == 1),
{
    lemma_lifecycle_new();
    lemma_lifecycle_run(lifecycle_new(), events);
}

/// The exclusivity check grants access exactly when there is one owner and
/// no observer.
pub proof fn lemma_exclusive_iff_sole_owner(s: Lifecycle)
    requires
        lifecycle_wf(s),
    ensures
        grants_exclusive(s.weak, s.strong) <==> (s.strong == 1 && s.weak_handles == 0),
{
}

/// A cycle through a weak edge is released: `a`'s payload owns `b` and `b`'s
/// payload observes `a`. Dropping the one outside owner of `a` destroys `a`'s
/// payload, which drops the owner of `b` and destroys `b`'s payload, which
/// drops the observer of `a`. Both payloads and both allocations are then
/// gone, each exactly once.
pub proof fn lemma_weak_cycle_released()
    ensures
        ({
            let a = step(lifecycle_new(), Event::Downgrade);
            let a_dropped = step(a, Event::DropArc);
            let b_dropped = step(lifecycle_new(), Event::DropArc);
            let a_done = step(a_dropped, Event::DropWeak);
            &&& a_dropped.payload_drops == 1
            &&& b_dropped.payload_drops == 1
            &&& b_dropped.frees == 1
            &&& a_done.payload_drops == 1
            &&& a_done.frees == 1
            &&& a_done.strong == 0 && a_done.weak_handles == 0
        }),
{
}

/// Once no handle of either kind is left, the payload has been destroyed
/// exactly once and the allocation freed exactly once.
pub proof fn lemma_lifecycle_end(s: Lifecycle)
    requires
        lifecycle_wf(s),
        s.strong == 0,
        s.weak_handles == 0,
    ensures
        s.payload_drops == 1,
        s.frees == 1,
{
}

/// The outcome of one round of `downgrade`.
pub enum DowngradeRound {
    Done,
    /// Try again from this observed weak count.
    Retry(usize),
    Overflow,
}

/// The outcome of one round of `upgrade`.
pub enum UpgradeRound {
    Done,
    /// Try again from this observed strong count.
    Retry(usize),
    Expired,
    Overflow,
}

/// The two counters of one allocation.
pub struct ArcCounts {
    strong: AtomicUsize,
    weak: AtomicUsize,
}

impl ArcCounts {
    /// The counts of a new allocation: one owner, and the owners' weak unit.
    pub fn new() -> (r: ArcCounts) {
        ArcCounts { strong: AtomicUsize::new(1), weak: AtomicUsize::new(1) }
    }

    pub fn observe_strong(&self) -> usize {
        self.strong.load(Ordering::Relaxed)
    }

    pub fn observe_weak(&self) -> usize {
        self.weak.load(Ordering::Relaxed)
    }

    /// A new owner, from an existing one: relaxed increment; false when the
    /// count was at the bound, which is fatal.
    pub fn increment_strong(&self) -> bool {
        let previous = self.strong.fetch_add(count_unit(), Ordering::Relaxed);
        within_limit(previous)
    }

    /// A new observer, from an existing one: as `increment_strong`.
    pub fn increment_weak(&self) -> bool {
        let previous = self.weak.fetch_add(count_unit(), Ordering::Relaxed);
        within_limit(previous)
    }

    /// An owner goes: release decrement; true when it was the last, after an
    /// acquire fence, and the payload is then to be destroyed and the owners'
    /// weak unit released.
    pub fn decrement_strong(&self) -> bool {
        let previous = self.strong.fetch_sub(count_unit(), Ordering::Release);
        if was_last(previous) {
            std::sync::atomic::fence(Ordering::Acquire);
            true
        } else {
            false
        }
    }

    /// A weak unit goes: release decrement; true when it was the last, after
    /// an acquire fence, and the allocation is then to be freed.
    pub fn decrement_weak(&self) -> bool {
        let previous = self.weak.fetch_sub(count_unit(), Ordering::Release);
        if was_last(previous) {
            std::sync::atomic::fence(Ordering::Acquire);
            true
        } else {
            false
        }
    }

    /// One round of `downgrade` from the observed weak count `n`: it spins
    /// past a running exclusivity check, reports the bound exactly when
    /// `downgrade_action` does, and otherwise tries the acquire increment.
    pub fn downgrade_round(&self, n: usize) -> (r: DowngradeRound)
        ensures
            r is Done ==> downgrade_action(n) is Increment,
            r is Overflow <==> downgrade_action(n) is Overflow,
            downgrade_action(n) is Spin ==> r is Retry,
    {
        match downgrade_decision(n) {
            DowngradeAction::Spin => {
                std::hint::spin_loop();
                DowngradeRound::Retry(self.weak.load(Ordering::Relaxed))
            },
            DowngradeAction::Overflow => DowngradeRound::Overflow,
            DowngradeAction::Increment(next) => {
                match self.weak.compare_exchange_weak(n, next, Ordering::Acquire, Ordering::Relaxed) {
                    Ok(_) => DowngradeRound::Done,
                    Err(seen) => DowngradeRound::Retry(seen),
                }
            },
        }
    }

    /// One round of `upgrade` from the observed strong count `n`: it fails
    /// exactly when no owner is left, reports the bound exactly when
    /// `upgrade_action` does, and otherwise tries the increment.
    pub fn upgrade_round(&self, n: usize) -> (r: UpgradeRound)
        ensures
            r is Done ==> upgrade_action(n) is Increment,
            r is Expired <==> n == 0,
            r is Overflow <==> upgrade_action(n) is Overflow,
    {
        match upgrade_decision(n) {
            UpgradeAction::Expired => UpgradeRound::Expired,
            UpgradeAction::Overflow => UpgradeRound::Overflow,
            UpgradeAction::Increment(next) => {
                match self.strong.compare_exchange_weak(n, next, Ordering::Relaxed, Ordering::Relaxed) {
                    Ok(_) => UpgradeRound::Done,
                    Err(seen) => UpgradeRound::Retry(seen),
                }
            },
        }
    }

    /// The exclusivity check: lock the weak word from exactly 1 (no observer),
    /// read the strong count with acquire ordering, unlock. True when the
    /// lock was taken and the strong count was 1.
    pub fn is_unique(&self) -> bool {
        let (sole, sentinel) = exclusivity_lock();
        let locked = self.weak.compare_exchange(sole, sentinel, Ordering::Acquire, Ordering::Relaxed).is_ok();
        if !locked {
            return exclusive_granted(false, 0);
        }
        let strong = self.strong.load(Ordering::Acquire);
        self.weak.store(sole, Ordering::Release);
        exclusive_granted(true, strong)
    }
}

} // verus!
