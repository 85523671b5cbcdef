use atomics_kit::arc::{downgrade_decision, upgrade_decision, DowngradeAction, DowngradeRound, UpgradeAction, UpgradeRound, COUNT_LIMIT, WEAK_LOCKED};
use atomics_kit::{ArcCounts, OneshotChannel};

fn downgrade(c: &ArcCounts) {
    let mut n = c.observe_weak();
    loop {
        match c.downgrade_round(n) {
            DowngradeRound::Done => return,
            DowngradeRound::Retry(m) => n = m,
            DowngradeRound::Overflow => panic!("too many weak references"),
        }
    }
}

fn upgrade(c: &ArcCounts) -> bool {
    let mut n = c.observe_strong();
    loop {
        match c.upgrade_round(n) {
            UpgradeRound::Done => return true,
            UpgradeRound::Expired => return false,
            UpgradeRound::Retry(m) => n = m,
            UpgradeRound::Overflow => panic!("too many references"),
        }
    }
}

/// Drops an owner; returns how many payloads that destroyed and whether the
/// allocation went too.
fn drop_arc(c: &ArcCounts) -> (u32, bool) {
    if c.decrement_strong() {
        (1, c.decrement_weak())
    } else {
        (0, false)
    }
}

fn check_counters(c: &ArcCounts, strong: usize, weak: usize) {
    assert_eq!(c.observe_strong(), strong);
    assert_eq!(c.observe_weak(), weak);
}

#[test]
fn test_various() {
    let counts = ArcCounts::new();
    let mut drops = 0;
    assert!(counts.is_unique());

    downgrade(&counts);
    downgrade(&counts);
    assert!(!counts.is_unique());
    check_counters(&counts, 1, 3);

    assert!(upgrade(&counts));
    assert!(!counts.decrement_weak());
    check_counters(&counts, 2, 2);
    let (d, freed) = drop_arc(&counts);
    drops += d;
    assert!(!freed);
    check_counters(&counts, 1, 2);

    assert_eq!(drops, 0);
    assert!(upgrade(&counts));
    let (d, freed) = drop_arc(&counts);
    drops += d;
    assert!(!freed);

    assert!(!counts.decrement_weak());
    assert_eq!(drops, 0);

    check_counters(&counts, 1, 1);
    assert!(counts.is_unique());

    downgrade(&counts);
    check_counters(&counts, 1, 2);

    let (d, freed) = drop_arc(&counts);
    drops += d;
    assert!(!freed);
    assert_eq!(drops, 1);

    check_counters(&counts, 0, 1);
    assert!(!upgrade(&counts));
    assert!(counts.decrement_weak());
    assert_eq!(drops, 1);
}

// `a` owns (through its payload) the only owner of `b`, and `b`'s payload
// observes `a`: dropping the outside owner of `a` must destroy both payloads.
#[test]
fn test_arc_weak_cycle() {
    let a = ArcCounts::new();
    let b = ArcCounts::new();
    downgrade(&a);
    let mut drops = 0;
    let mut freed = 0;

    let (d, f) = drop_arc(&a);
    drops += d;
    freed += f as u32;
    // Destroying `a`'s payload drops its owner of `b`.
    let (d, f) = drop_arc(&b);
    drops += d;
    freed += f as u32;
    // Destroying `b`'s payload drops its observer of `a`.
    freed += a.decrement_weak() as u32;

    assert_eq!(drops, 2);
    assert_eq!(freed, 2);
}

#[test]
fn exclusivity_check_blocks_downgrade() {
    let counts = ArcCounts::new();
    assert!(matches!(counts.downgrade_round(WEAK_LOCKED), DowngradeRound::Retry(1)));
    assert!(matches!(counts.downgrade_round(COUNT_LIMIT + 1), DowngradeRound::Overflow));
    assert!(matches!(counts.upgrade_round(0), UpgradeRound::Expired));
    assert!(matches!(counts.upgrade_round(COUNT_LIMIT + 1), UpgradeRound::Overflow));
}

#[test]
fn clone_bound() {
    let counts = ArcCounts::new();
    assert!(counts.increment_strong());
    assert!(counts.increment_weak());
    check_counters(&counts, 2, 2);
    assert!(!counts.decrement_strong());
    assert!(counts.decrement_strong());
    assert!(!counts.decrement_weak());
    assert!(counts.decrement_weak());
}

#[test]
fn count_decisions() {
    assert!(matches!(downgrade_decision(WEAK_LOCKED), DowngradeAction::Spin));
    assert!(matches!(downgrade_decision(1), DowngradeAction::Increment(2)));
    assert!(matches!(downgrade_decision(COUNT_LIMIT), DowngradeAction::Increment(_)));
    assert!(matches!(downgrade_decision(COUNT_LIMIT + 1), DowngradeAction::Overflow));
    assert!(matches!(upgrade_decision(0), UpgradeAction::Expired));
    assert!(matches!(upgrade_decision(3), UpgradeAction::Increment(4)));
    assert!(matches!(upgrade_decision(COUNT_LIMIT + 1), UpgradeAction::Overflow));
}

#[test]
fn oneshot_channel_test() {
    let mut channel = OneshotChannel::new();
    let slot = std::sync::Mutex::new(None);
    let (sender, receiver) = channel.split();
    assert!(std::ptr::eq(sender.channel, receiver.channel));
    assert!(!receiver.try_receive());
    *slot.try_lock().unwrap() = Some("test");
    sender.send();
    assert!(receiver.try_receive());
    assert_eq!(slot.try_lock().unwrap().take(), Some("test"));
    assert!(!receiver.try_receive());
}

#[test]
fn oneshot_unreceived_message_is_left_for_drop() {
    let mut channel = OneshotChannel::new();
    let (sender, _receiver) = channel.split();
    sender.send();
    assert!(channel.holds_message());
    // Splitting again resets the channel.
    let (_sender, receiver) = channel.split();
    assert!(!receiver.try_receive());
    assert!(!channel.holds_message());
}
