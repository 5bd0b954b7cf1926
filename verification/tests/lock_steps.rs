use widerwlock::word::{
    GLOBAL_READER, LOCAL_BIAS_LIMIT, READ_PARK_TOKEN, WRITE_PARK_TOKEN,
};
use widerwlock::{Action, FilterDecision, LockOp, Outcome, ReadGuard, WideRwLock, WriteGuard};

/// Steps an operation until it is done or asks for something other than going on;
/// returns that request.
fn drive(lock: &WideRwLock, op: &mut LockOp) -> Action {
    loop {
        match lock.step(op) {
            Action::Continue | Action::SpinHint => {}
            other => return other,
        }
    }
}

fn finish(lock: &WideRwLock, mut op: LockOp) -> Outcome {
    loop {
        match drive(lock, &mut op) {
            Action::Done(o) => return o,
            Action::UnparkAll | Action::UnparkLocal(_) | Action::UnparkPrivWriter => {}
            _ => panic!("an uncontended operation does not park"),
        }
    }
}

fn read(lock: &WideRwLock, thread_id: u64) -> ReadGuard {
    match finish(lock, lock.read(thread_id)) {
        Outcome::Read(g) => g,
        _ => panic!("a read gives a read lock"),
    }
}

fn write(lock: &WideRwLock) -> WriteGuard {
    match finish(lock, lock.write()) {
        Outcome::Write(g) => g,
        _ => panic!("a write gives the write lock"),
    }
}

/// Reads (and releases) until the local bias sends the next reader to local mode.
fn go_local(lock: &WideRwLock, thread_id: u64) -> ReadGuard {
    for _ in 1..LOCAL_BIAS_LIMIT {
        let g = read(lock, thread_id);
        assert_eq!(g.reader_id(), GLOBAL_READER);
        assert!(matches!(finish(lock, g.unlock()), Outcome::Unlocked));
    }
    read(lock, thread_id)
}

#[test]
fn first_reads_go_through_the_global_word() {
    let lock = WideRwLock::new();
    let g = read(&lock, 5);
    assert_eq!(g.reader_id(), GLOBAL_READER);
    assert!(matches!(finish(&lock, g.unlock()), Outcome::Unlocked));
}

#[test]
fn local_bias_moves_readers_to_their_local_word() {
    let lock = WideRwLock::new();
    let g = go_local(&lock, 13);
    assert_eq!(g.reader_id(), 5);
    assert!(matches!(finish(&lock, g.unlock()), Outcome::Unlocked));
    // the word stays local: the next read of the same thread is local at once
    let g = read(&lock, 13);
    assert_eq!(g.reader_id(), 5);
    assert!(matches!(finish(&lock, g.unlock()), Outcome::Unlocked));
    // the two words after it were made local too
    let g = read(&lock, 6);
    assert_eq!(g.reader_id(), 6);
    assert!(matches!(finish(&lock, g.unlock()), Outcome::Unlocked));
}

#[test]
fn upgrade_of_a_local_read_lock_is_not_atomic() {
    let lock = WideRwLock::new();
    let g = go_local(&lock, 2);
    assert_eq!(g.reader_id(), 2);
    let u = match finish(&lock, g.upgrade_to_write_lock()) {
        Outcome::Upgraded(u) => u,
        _ => panic!("an upgrade gives the write lock"),
    };
    assert!(!u.atomic());
    assert!(matches!(finish(&lock, u.into_guard().unlock()), Outcome::Unlocked));
    // after the writer the lock is global again, and a single reader upgrades atomically
    let g = read(&lock, 2);
    assert_eq!(g.reader_id(), GLOBAL_READER);
    let u = match finish(&lock, g.upgrade_to_write_lock()) {
        Outcome::Upgraded(u) => u,
        _ => panic!("an upgrade gives the write lock"),
    };
    assert!(u.atomic());
}

#[test]
fn upgrade_with_two_global_readers_is_not_atomic() {
    let lock = WideRwLock::new();
    let a = read(&lock, 0);
    let b = read(&lock, 1);
    assert_eq!(a.reader_id(), GLOBAL_READER);
    assert_eq!(b.reader_id(), GLOBAL_READER);
    let mut up = a.upgrade_to_write_lock();
    // the other reader is still in: the writer waits for it
    assert!(matches!(drive(&lock, &mut up), Action::ParkPrivWriter));
    // the last global reader leaving wakes the waiting writer
    let mut rel = b.unlock();
    assert!(matches!(drive(&lock, &mut rel), Action::UnparkPrivWriter));
    assert!(matches!(drive(&lock, &mut rel), Action::Done(Outcome::Unlocked)));
    up.resume(true);
    match drive(&lock, &mut up) {
        Action::Done(Outcome::Upgraded(u)) => assert!(!u.atomic()),
        _ => panic!("the upgrade ends with the write lock"),
    }
}

#[test]
fn writer_waits_for_a_local_reader_and_is_woken_by_it() {
    let lock = WideRwLock::new();
    let g = go_local(&lock, 3);
    assert_eq!(g.reader_id(), 3);
    let mut w = lock.write();
    match drive(&lock, &mut w) {
        Action::ParkLocal(i) => assert_eq!(i, 3),
        _ => panic!("the writer waits for the reader on word 3"),
    }
    // while the writer waits, new readers are held back: they park
    let mut r = lock.read(11);
    assert!(matches!(drive(&lock, &mut r), Action::ParkReader));
    // the reader leaves and wakes the writer parked on its word
    let mut rel = g.unlock();
    match drive(&lock, &mut rel) {
        Action::UnparkLocal(i) => assert_eq!(i, 3),
        _ => panic!("the last reader of a sealed word wakes the writer"),
    }
    assert!(matches!(drive(&lock, &mut rel), Action::Done(Outcome::Unlocked)));
    w.resume(true);
    let wg = match drive(&lock, &mut w) {
        Action::Done(Outcome::Write(g)) => g,
        _ => panic!("the writer gets the lock"),
    };
    // the parked reader still cannot get in
    r.resume(false);
    assert!(matches!(drive(&lock, &mut r), Action::ParkReader));
    assert!(matches!(finish(&lock, wg.unlock()), Outcome::Unlocked));
    r.resume(true);
    match finish(&lock, r) {
        Outcome::Read(g) => {
            assert_eq!(g.reader_id(), 3);
            assert!(matches!(finish(&lock, g.unlock()), Outcome::Unlocked));
        }
        _ => panic!("the reader gets in once the writer is gone"),
    }
}

#[test]
fn parked_threads_are_announced_to_the_unlocker() {
    let lock = WideRwLock::new();
    let wg = write(&lock);
    let mut r = lock.read(0);
    assert!(matches!(drive(&lock, &mut r), Action::ParkReader));
    // the write unlock must wake the parked reader
    assert!(matches!(drive(&lock, &mut wg.unlock()), Action::UnparkAll));
    r.resume(true);
    assert!(matches!(drive(&lock, &mut r), Action::Done(Outcome::Read(_))));
}

#[test]
fn second_writer_parks_until_the_first_leaves() {
    let lock = WideRwLock::new();
    let first = write(&lock);
    let mut second = lock.write();
    assert!(matches!(drive(&lock, &mut second), Action::ParkWriter));
    assert!(lock.write_park_validate());
    assert!(matches!(drive(&lock, &mut first.unlock()), Action::UnparkAll));
    assert!(!lock.write_park_validate());
    second.resume(true);
    assert!(matches!(drive(&lock, &mut second), Action::Done(Outcome::Write(_))));
}

#[test]
fn downgrade_gives_a_read_lock() {
    let lock = WideRwLock::new();
    let w = write(&lock);
    let g = match finish(&lock, w.downgrade_to_read_lock(7)) {
        Outcome::Read(g) => g,
        _ => panic!("a downgrade gives a read lock"),
    };
    assert_eq!(g.reader_id(), GLOBAL_READER);
    // a writer now has to wait for that reader
    let mut second = lock.write();
    assert!(matches!(drive(&lock, &mut second), Action::ParkPrivWriter));
    assert!(matches!(finish(&lock, g.unlock()), Outcome::Unlocked));
}

#[test]
fn unpark_filter_wakes_a_first_writer_alone() {
    let lock = WideRwLock::new();
    let mut f = lock.unpark_filter();
    assert!(matches!(f.decide(WRITE_PARK_TOKEN), FilterDecision::Unpark));
    assert!(matches!(f.decide(READ_PARK_TOKEN), FilterDecision::Stop));
}

#[test]
fn unpark_filter_wakes_all_readers_after_a_first_reader() {
    let lock = WideRwLock::new();
    let mut f = lock.unpark_filter();
    assert!(matches!(f.decide(READ_PARK_TOKEN), FilterDecision::Unpark));
    assert!(matches!(f.decide(WRITE_PARK_TOKEN), FilterDecision::Skip));
    assert!(matches!(f.decide(READ_PARK_TOKEN), FilterDecision::Unpark));
}

#[test]
fn unpark_filter_wakes_a_first_reader_and_every_reader_behind_it() {
    let lock = WideRwLock::new();
    let mut f = lock.unpark_filter();
    let queue = [READ_PARK_TOKEN, WRITE_PARK_TOKEN, READ_PARK_TOKEN, WRITE_PARK_TOKEN, READ_PARK_TOKEN];
    let woken: Vec<bool> = queue.iter().map(|t| matches!(f.decide(*t), FilterDecision::Unpark)).collect();
    assert_eq!(woken, vec![true, false, true, false, true]);
}
