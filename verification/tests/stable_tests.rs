use widerwlock::{Action, LockOp, Outcome, ReadGuard, UpgradeResult, WideRwLock, WriteGuard};

/// Runs an operation to its end. An uncontended operation never has to park.
fn run(lock: &WideRwLock, mut op: LockOp) -> Outcome {
    loop {
        match lock.step(&mut op) {
            Action::Done(o) => return o,
            Action::Continue | Action::SpinHint => {}
            Action::UnparkAll | Action::UnparkLocal(_) | Action::UnparkPrivWriter => {}
            Action::ParkReader | Action::ParkWriter | Action::ParkLocal(_) | Action::ParkPrivWriter => {
                panic!("an uncontended operation does not park")
            }
        }
    }
}

fn read(lock: &WideRwLock, thread_id: u64) -> ReadGuard {
    match run(lock, lock.read(thread_id)) {
        Outcome::Read(g) => g,
        _ => panic!("a read gives a read lock"),
    }
}

fn write(lock: &WideRwLock) -> WriteGuard {
    match run(lock, lock.write()) {
        Outcome::Write(g) => g,
        _ => panic!("a write gives the write lock"),
    }
}

fn read_unlock(lock: &WideRwLock, g: ReadGuard) {
    assert!(matches!(run(lock, g.unlock()), Outcome::Unlocked));
}

fn write_unlock(lock: &WideRwLock, g: WriteGuard) {
    assert!(matches!(run(lock, g.unlock()), Outcome::Unlocked));
}

fn upgrade(lock: &WideRwLock, g: ReadGuard) -> UpgradeResult {
    match run(lock, g.upgrade_to_write_lock()) {
        Outcome::Upgraded(u) => u,
        _ => panic!("an upgrade gives the write lock"),
    }
}

#[test]
fn test_upgrade() {
    let lock = WideRwLock::new();
    {
        let guard = read(&lock, 0);
        let result = upgrade(&lock, guard);
        assert!(result.atomic());
        write_unlock(&lock, result.into_guard());
    }
}

#[test]
fn stable_tests_write_lock_read_lock() {
    let lock = WideRwLock::new();
    {
        let w = write(&lock);
        write_unlock(&lock, w);
    }
    {
        let r = read(&lock, 0);
        read_unlock(&lock, r);
    }
}

#[test]
fn lib_write_lock_read_lock() {
    let lock = WideRwLock::new();
    {
        let w = write(&lock);
        write_unlock(&lock, w);
    }
    {
        let r = read(&lock, 0);
        read_unlock(&lock, r);
    }
}

#[test]
fn test_upgrade2() {
    let lock = WideRwLock::new();
    {
        let r = read(&lock, 0);
        read_unlock(&lock, r);
        let r = read(&lock, 0); // this is not a test of reentrancy. This only works because the lock is uncontended
        read_unlock(&lock, r);
        let r = read(&lock, 0);
        read_unlock(&lock, r);
    }
    // the three reads went through the global word (the local bias is still low)
    {
        let w = write(&lock);
        write_unlock(&lock, w);
    }
    // after the writer the lock is in global mode
    let guard = read(&lock, 0);
    let result = upgrade(&lock, guard);
    assert!(result.atomic());
    write_unlock(&lock, result.into_guard());
}
