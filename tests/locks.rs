use atomics_kit::mutex::{contended_won, release_wakes};
use atomics_kit::rwlock::{read_decision, read_release_wakes, write_decision, ReadAction, ReadRound, WriteAction, WriteRound};
use atomics_kit::spin_lock::attempt_won;
use atomics_kit::{Condvar, Guard, Mutex, MutexGuard, ReadGuard, RwLock, SpinLock, WriteGuard};
use std::sync::atomic::{AtomicU32, Ordering};

fn spin<'a>(lock: &'a SpinLock) -> Guard<'a> {
    loop {
        if let Some(g) = lock.try_lock() {
            return g;
        }
        std::hint::spin_loop();
    }
}

fn lock<'a>(mutex: &'a Mutex) -> MutexGuard<'a> {
    if let Some(g) = mutex.try_lock() {
        return g;
    }
    loop {
        if let Some(g) = mutex.lock_round() {
            return g;
        }
    }
}

fn read<'a>(rwlock: &'a RwLock) -> ReadGuard<'a> {
    let mut state = rwlock.observe();
    loop {
        match rwlock.read_round(state) {
            ReadRound::Acquired(g) => return g,
            ReadRound::Retry(s) => state = s,
            ReadRound::TooManyReaders => panic!("too many readers"),
        }
    }
}

fn write<'a>(rwlock: &'a RwLock) -> WriteGuard<'a> {
    let mut state = rwlock.observe();
    loop {
        match rwlock.write_round(state) {
            WriteRound::Acquired(g) => return g,
            WriteRound::Retry(s) => state = s,
        }
    }
}

// The protected vector sits in a std mutex that is only ever taken with
// `try_lock`: that succeeds every time only if the lock under test excludes.
#[test]
fn spin_lock_test() {
    let lock = SpinLock::new();
    let data = std::sync::Mutex::new(Vec::new());
    let g = spin(&lock);
    assert!(lock.try_lock().is_none());
    data.try_lock().unwrap().push(1);
    g.release();
    let g = spin(&lock);
    assert!(lock.try_lock().is_none());
    let mut v = data.try_lock().unwrap();
    v.push(2);
    v.push(3);
    drop(v);
    g.release();
    let g = spin(&lock);
    let v = data.try_lock().unwrap().clone();
    g.release();
    assert!(v == vec![1, 2, 3] || v == vec![2, 3, 1]);
}

#[test]
fn mutex_test() {
    let mutex = Mutex::new();
    let data = std::sync::Mutex::new(Vec::new());
    let g = lock(&mutex);
    assert!(mutex.try_lock().is_none());
    data.try_lock().unwrap().push(1);
    g.release();
    let g = lock(&mutex);
    let mut v = data.try_lock().unwrap();
    v.push(2);
    v.push(3);
    drop(v);
    g.release();
    let g = lock(&mutex);
    let v = data.try_lock().unwrap().clone();
    g.release();
    assert!(v == vec![1, 2, 3] || v == vec![2, 3, 1]);
}

// Each increment is a separate load and store, made only by the holder.
#[test]
fn locks_count_every_increment() {
    let mutex = Mutex::new();
    let spin_lock = SpinLock::new();
    let counter = AtomicU32::new(0);
    let spun = AtomicU32::new(0);
    for _ in 0..4 {
        for _ in 0..1000 {
            let g = lock(&mutex);
            assert!(mutex.try_lock().is_none());
            counter.store(counter.load(Ordering::Relaxed) + 1, Ordering::Relaxed);
            g.release();
            let h = spin(&spin_lock);
            assert!(spin_lock.try_lock().is_none());
            spun.store(spun.load(Ordering::Relaxed) + 1, Ordering::Relaxed);
            h.release();
        }
    }
    assert_eq!(counter.load(Ordering::Relaxed), 4000);
    assert_eq!(spun.load(Ordering::Relaxed), 4000);
}

#[test]
fn mutex_contended_round_takes_a_free_lock() {
    let mutex = Mutex::new();
    let g = mutex.lock_round().unwrap();
    assert!(mutex.try_lock().is_none());
    g.release();
    assert!(mutex.try_lock().is_some());
}

#[test]
fn condvar_test() {
    let mutex = Mutex::new();
    let condvar = Condvar::new();
    let value = AtomicU32::new(0);
    let mut wakeups = 0;
    let g = lock(&mutex);
    value.store(123, Ordering::Relaxed);
    g.release();
    condvar.notify_one();
    // With one thread the notify comes before the predicate check, so the
    // waiter finds it true and `wait` is not reached.
    let mut g = lock(&mutex);
    while value.load(Ordering::Relaxed) < 100 {
        g = lock(condvar.wait(g));
        wakeups += 1;
    }
    assert_eq!(value.load(Ordering::Relaxed), 123);
    g.release();
    assert!(wakeups < 10);
}

#[test]
fn condvar_notify_without_waiters_is_harmless() {
    let condvar = Condvar::new();
    condvar.notify_one();
    condvar.notify_all();
    let mutex = Mutex::new();
    let g = lock(&mutex);
    g.release();
    assert!(mutex.try_lock().is_some());
}

#[test]
fn rwlock_test() {
    let writers: i64 = 2;
    let increase_per_writer: i64 = 100;
    let rwlock = RwLock::new();
    let value = std::sync::RwLock::new(0i64);
    let mut prev_val = [-1i64; 3];
    for _ in 0..increase_per_writer {
        for _ in 0..writers {
            let g = write(&rwlock);
            assert!(matches!(read_decision(rwlock.observe()), ReadAction::Wait));
            *value.try_write().unwrap() += 1;
            g.release();
        }
        let guards = [read(&rwlock), read(&rwlock), read(&rwlock)];
        for p in prev_val.iter_mut() {
            let val = *value.try_read().unwrap();
            assert!(val <= writers * increase_per_writer);
            assert!(*p <= val);
            *p = val;
        }
        for g in guards {
            g.release();
        }
    }
    let g = read(&rwlock);
    assert_eq!(*value.try_read().unwrap(), 200);
    g.release();
}

#[test]
fn rwlock_readers_share() {
    let rwlock = RwLock::new();
    let a = read(&rwlock);
    let b = read(&rwlock);
    assert_eq!(rwlock.observe(), 4);
    assert!(matches!(rwlock.write_round(0), WriteRound::Retry(_)));
    a.release();
    b.release();
    assert_eq!(rwlock.observe(), 0);
    let w = write(&rwlock);
    assert_eq!(rwlock.observe(), u32::MAX);
    w.release();
    assert_eq!(rwlock.observe(), 0);
}

#[test]
fn rwlock_reader_bound() {
    let rwlock = RwLock::new();
    assert!(matches!(rwlock.read_round(u32::MAX - 1), ReadRound::TooManyReaders));
}

#[test]
fn decisions_on_observed_words() {
    assert!(attempt_won(false));
    assert!(!attempt_won(true));
    assert!(contended_won(0));
    assert!(!contended_won(1));
    assert!(!contended_won(2));
    assert!(release_wakes(2));
    assert!(!release_wakes(1));
    assert!(matches!(read_decision(0), ReadAction::Increment(2)));
    assert!(matches!(read_decision(6), ReadAction::Increment(8)));
    assert!(matches!(read_decision(3), ReadAction::Wait));
    assert!(matches!(read_decision(u32::MAX), ReadAction::Wait));
    assert!(matches!(read_decision(u32::MAX - 1), ReadAction::TooManyReaders));
    assert!(matches!(write_decision(0), WriteAction::Lock));
    assert!(matches!(write_decision(1), WriteAction::Lock));
    assert!(matches!(write_decision(4), WriteAction::MarkWaiting(5)));
    assert!(matches!(write_decision(5), WriteAction::Wait));
    assert!(matches!(write_decision(u32::MAX), WriteAction::Wait));
    assert!(read_release_wakes(3));
    assert!(!read_release_wakes(2));
    assert!(!read_release_wakes(5));
}
