use p_os::cpu::InterruptFlag;
use p_os::uninterruptible_mutex::{InterruptGuard, UninterruptibleMutex, UninterruptibleMutexGuard};

#[test]
fn interrupt_guard_masks_and_restores() {
    let mut flag = InterruptFlag::new(true);
    let guard = InterruptGuard::new(&mut flag);
    assert!(!flag.are_enabled());
    guard.release(&mut flag);
    assert!(flag.are_enabled());

    let mut flag = InterruptFlag::new(false);
    let guard = InterruptGuard::new(&mut flag);
    assert!(!flag.are_enabled());
    guard.release(&mut flag);
    assert!(!flag.are_enabled());
}

#[test]
fn lock_masks_interrupts_until_unlock() {
    let mutex = UninterruptibleMutex::new(5u32);
    let mut flag = InterruptFlag::new(true);
    assert!(!mutex.is_locked());
    let mut guard = mutex.lock(&mut flag);
    assert!(mutex.is_locked());
    assert!(!flag.are_enabled());
    assert_eq!(*guard.deref(), 5);
    *guard.deref_mut() = 6;
    assert!(!flag.are_enabled());
    guard.unlock(&mut flag);
    assert!(flag.are_enabled());
    assert!(!mutex.is_locked());
    let guard = mutex.lock(&mut flag);
    assert_eq!(*guard.deref(), 6);
    guard.unlock(&mut flag);
}

#[test]
fn try_lock_on_a_held_mutex_puts_the_flag_back() {
    let mutex = UninterruptibleMutex::new(String::from("serial"));
    let mut flag = InterruptFlag::new(true);
    let guard = mutex.try_lock(&mut flag).expect("the mutex is free");
    assert!(!flag.are_enabled());
    assert!(mutex.try_lock(&mut flag).is_none());
    assert!(!flag.are_enabled());
    guard.unlock(&mut flag);
    assert!(flag.are_enabled());

    let held = mutex.lock(&mut flag);
    flag.enable();
    assert!(mutex.try_lock(&mut flag).is_none());
    assert!(flag.are_enabled());
    held.unlock(&mut flag);
}

#[test]
fn nested_locks_keep_interrupts_masked_until_the_last_unlock() {
    let first = UninterruptibleMutex::new(1u8);
    let second = UninterruptibleMutex::new(2u8);
    let mut flag = InterruptFlag::new(true);
    let outer = first.lock(&mut flag);
    let inner = second.lock(&mut flag);
    assert!(!flag.are_enabled());
    inner.unlock(&mut flag);
    assert!(!flag.are_enabled());
    outer.unlock(&mut flag);
    assert!(flag.are_enabled());
}

#[test]
fn a_handler_never_sees_a_half_written_value() {
    // Both halves of the pair are meant to be equal. The handler runs only
    // when an interrupt is delivered, that is while the flag is set.
    fn interrupt(mutex: &UninterruptibleMutex<(u32, u32)>, flag: &mut InterruptFlag) -> bool {
        if !flag.are_enabled() {
            return false;
        }
        let guard = mutex.try_lock(flag).expect("nobody holds the mutex while interrupts are on");
        let pair = *guard.deref();
        guard.unlock(flag);
        assert_eq!(pair.0, pair.1);
        true
    }
    let mutex = UninterruptibleMutex::new((0u32, 0u32));
    let mut flag = InterruptFlag::new(true);
    let mut delivered = 0;
    for round in 1..50u32 {
        if interrupt(&mutex, &mut flag) {
            delivered += 1;
        }
        let mut guard = mutex.lock(&mut flag);
        assert!(!interrupt(&mutex, &mut flag));
        guard.deref_mut().0 = round;
        if round % 3 != 0 {
            assert!(!interrupt(&mutex, &mut flag));
        }
        guard.deref_mut().1 = round;
        assert!(!interrupt(&mutex, &mut flag));
        guard.unlock(&mut flag);
        if round % 2 == 0 && interrupt(&mutex, &mut flag) {
            delivered += 1;
        }
    }
    assert_eq!(delivered, 49 + 24);
}

#[test]
fn lock_with_and_release_lock_split_the_two_halves() {
    let mut mutex = UninterruptibleMutex::new(vec![1, 2, 3]);
    mutex.get_mut().push(4);
    let mut flag = InterruptFlag::new(true);
    let interrupt_guard = InterruptGuard::new(&mut flag);
    let guard = mutex.lock_with(interrupt_guard);
    assert_eq!(guard.deref().len(), 4);
    let second = InterruptGuard::new(&mut flag);
    let second = match mutex.try_lock_with(second) {
        Ok(_) => panic!("the mutex is held"),
        Err(second) => second,
    };
    second.release(&mut flag);
    assert!(!flag.are_enabled());
    let interrupt_guard = guard.release_lock();
    assert!(!mutex.is_locked());
    assert!(!flag.are_enabled());
    interrupt_guard.release(&mut flag);
    assert!(flag.are_enabled());
}

#[test]
fn a_lock_that_was_missed_gives_the_interrupt_guard_back() {
    let inner = spin::Mutex::new(3u8);
    let mut flag = InterruptFlag::new(true);
    let interrupt_guard = InterruptGuard::new(&mut flag);
    let mut guard = match UninterruptibleMutexGuard::holding(inner.try_lock(), interrupt_guard) {
        Ok(guard) => guard,
        Err(_) => panic!("the lock was obtained"),
    };
    assert!(inner.is_locked());
    assert_eq!(*guard.deref(), 3);
    *guard.deref_mut() = 4;
    assert_eq!(*guard.deref(), 4);

    let second = InterruptGuard::new(&mut flag);
    match UninterruptibleMutexGuard::holding(inner.try_lock(), second) {
        Ok(_) => panic!("the lock is held"),
        Err(returned) => returned.release(&mut flag),
    }
    assert!(!flag.are_enabled());

    match UninterruptibleMutexGuard::holding(None::<spin::MutexGuard<u8>>, InterruptGuard::new(&mut flag)) {
        Ok(_) => panic!("there is no lock"),
        Err(returned) => returned.release(&mut flag),
    }
    assert!(!flag.are_enabled());

    guard.unlock(&mut flag);
    assert!(flag.are_enabled());
    assert!(!inner.is_locked());
    assert_eq!(*inner.lock(), 4);
}
