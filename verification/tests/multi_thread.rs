use shared_pin::pin_arc::{LockResult, PinWeak, PoisonError, TryLockError};
use shared_pin::{PinArc, PinRwLockReadGuard, PinRwLockWriteGuard};
use std::pin::Pin;
use std::sync::{Arc, RwLock};

/// One answer of a stepwise producer.
enum Step {
    Yielded(u32),
    Complete,
}

/// Yields `next`, `next + 1`, ... below `end`, one number a call.
#[derive(Debug)]
struct Producer {
    next: u32,
    end: u32,
}

impl Producer {
    fn resume(self: Pin<&mut Self>) -> Step {
        let this = self.get_mut();
        if this.next < this.end {
            let x = this.next;
            this.next += 1;
            Step::Yielded(x)
        } else {
            Step::Complete
        }
    }
}

fn is_send_and_sync<X: Send + Sync>(_: &X) -> bool {
    true
}

/// Waits for shared access on the lock that the handle lends, and hands the
/// answer on.
fn read<T: Unpin + ?Sized>(arc: &PinArc<T>) -> LockResult<PinRwLockReadGuard<'_, T>> {
    PinRwLockReadGuard::from_read(match PinArc::rwlock(arc).read() {
        Ok(guard) => Ok(guard),
        Err(poison) => Err(PoisonError::new(poison.into_inner())),
    })
}

/// Waits for exclusive access on the lock that the handle lends, and hands
/// the answer on.
fn write<T: Unpin + ?Sized>(arc: &PinArc<T>) -> LockResult<PinRwLockWriteGuard<'_, T>> {
    PinRwLockWriteGuard::from_write(match PinArc::rwlock(arc).write() {
        Ok(guard) => Ok(guard),
        Err(poison) => Err(PoisonError::new(poison.into_inner())),
    })
}

#[test]
fn pin_arc_works() {
    let gen = PinArc::new(Producer { next: 0, end: 10 });

    let mut results = Vec::new();
    while let Step::Yielded(x) = write(&gen).unwrap().as_pin().resume() {
        results.push(x);
    }

    assert_eq!((0..10).collect::<Vec<_>>(), results);
}

#[test]
fn arc_new_has_one_strong_and_no_weak_handle() {
    let arc = PinArc::new(7u8);
    assert_eq!(PinArc::strong_count(&arc), 1);
    assert_eq!(PinArc::weak_count(&arc), 0);
    assert!(!arc.is_poisoned());
}

#[test]
fn arc_handles_may_cross_threads() {
    let arc = PinArc::new(7u8);
    let weak = PinArc::downgrade(&arc);
    assert!(is_send_and_sync(&arc));
    assert!(is_send_and_sync(&weak));
}

#[test]
fn arc_shared_guard_shows_the_value_it_was_made_from() {
    let number = PinArc::new(-42i64);
    assert_eq!(*read(&number).unwrap(), -42);
    assert_eq!(*number.try_read().unwrap(), -42);

    let text = PinArc::new(String::from("stays put"));
    assert_eq!(*read(&text).unwrap(), "stays put");

    let list = PinArc::new(vec![1u8, 2, 3]);
    assert_eq!(*list.try_read().unwrap(), vec![1, 2, 3]);
}

#[test]
fn arc_from_value_is_like_new() {
    let arc: PinArc<u16> = PinArc::from(300u16);
    assert_eq!(*read(&arc).unwrap(), 300);
    assert_eq!(PinArc::strong_count(&arc), 1);
    assert_eq!(PinArc::weak_count(&arc), 0);
}

#[test]
fn arc_default_wraps_the_default_value() {
    let arc: PinArc<u64> = PinArc::default();
    assert_eq!(*read(&arc).unwrap(), 0);
    assert!(format!("{:?}", arc).contains("PinArc"));
}

#[test]
fn arc_clone_counts_and_shares() {
    let first = PinArc::new(String::from("one value"));
    let second = first.clone();
    assert_eq!(PinArc::strong_count(&first), 2);
    assert!(PinArc::ptr_eq(&first, &second));
    assert!(!PinArc::ptr_eq(&first, &PinArc::new(String::from("one value"))));

    write(&second).unwrap().as_pin().push_str(", two handles");
    assert_eq!(*read(&first).unwrap(), "one value, two handles");
}

#[test]
fn arc_clone_outlives_its_source() {
    let first = PinArc::new(vec![10u32, 20, 30]);
    let second = first.clone();
    drop(first);
    assert_eq!(PinArc::strong_count(&second), 1);
    assert_eq!(*read(&second).unwrap(), vec![10, 20, 30]);
    write(&second).unwrap().as_pin().push(40);
    assert_eq!(*read(&second).unwrap(), vec![10, 20, 30, 40]);
}

#[test]
fn arc_downgrade_counts_weak_only() {
    let arc = PinArc::new(1u8);
    let weak = PinArc::downgrade(&arc);
    assert_eq!(PinArc::strong_count(&arc), 1);
    assert_eq!(PinArc::weak_count(&arc), 1);
    let again = weak.clone();
    assert_eq!(PinArc::weak_count(&arc), 2);
    drop(weak);
    drop(again);
    assert_eq!(PinArc::weak_count(&arc), 0);
}

#[test]
fn arc_upgrade_while_alive_gives_the_same_allocation() {
    let arc = PinArc::new(String::from("alive"));
    let weak = PinArc::downgrade(&arc);
    let strong = weak.upgrade().expect("a strong handle exists");
    assert!(PinArc::ptr_eq(&arc, &strong));
    assert_eq!(PinArc::strong_count(&arc), 2);
    assert_eq!(*read(&strong).unwrap(), "alive");
}

#[test]
fn arc_upgrade_after_last_strong_is_none() {
    let arc = PinArc::new(99u32);
    let second = arc.clone();
    let weak = PinArc::downgrade(&arc);
    drop(arc);
    assert!(weak.upgrade().is_some());
    drop(second);
    assert!(weak.upgrade().is_none());
    assert!(weak.clone().upgrade().is_none());
}

#[test]
fn arc_default_weak_never_upgrades() {
    let weak: PinWeak<u32> = PinWeak::default();
    assert!(weak.upgrade().is_none());
    assert!(format!("{:?}", weak).contains("Weak"));
}

#[test]
fn arc_readers_do_not_exclude_each_other() {
    let arc = PinArc::new(11u32);
    let other = arc.clone();
    let one = arc.try_read().unwrap();
    let two = other.try_read().unwrap();
    let three = read(&other).unwrap();
    assert_eq!(*one + *two + *three, 33);
}

#[test]
fn arc_writer_would_block_while_readers_are_out() {
    let arc = PinArc::new(0u32);
    let one = arc.try_read().unwrap();
    let two = arc.try_read().unwrap();
    assert!(matches!(arc.try_write(), Err(TryLockError::WouldBlock)));
    drop(one);
    assert!(matches!(arc.try_write(), Err(TryLockError::WouldBlock)));
    drop(two);
    assert!(arc.try_write().is_ok());
}

#[test]
fn arc_everyone_would_block_while_a_writer_is_out() {
    let arc = PinArc::new(0u32);
    let other = arc.clone();
    let writer = arc.try_write().unwrap();
    assert!(matches!(other.try_read(), Err(TryLockError::WouldBlock)));
    assert!(matches!(other.try_write(), Err(TryLockError::WouldBlock)));
    drop(writer);
    assert!(other.try_read().is_ok());
    assert!(write(&other).is_ok());
}

#[test]
fn arc_guard_is_released_on_early_return() {
    fn leave_early(arc: &PinArc<u32>, early: bool) -> u32 {
        let guard = write(&arc).unwrap();
        if early {
            return 1;
        }
        *guard + 1
    }
    let arc = PinArc::new(4u32);
    assert_eq!(leave_early(&arc, true), 1);
    assert!(arc.try_write().is_ok());
    assert_eq!(leave_early(&arc, false), 5);
    assert!(arc.try_write().is_ok());
}

#[test]
fn arc_two_mutations_add_up() {
    let arc = PinArc::new(100i32);
    {
        let mut guard = write(&arc).unwrap();
        *guard.as_pin() += 5;
    }
    {
        let mut guard = arc.try_write().unwrap();
        *guard.as_pin() *= 2;
    }
    assert_eq!(*read(&arc).unwrap(), 210);
}

#[test]
fn arc_counter_steps_to_ten() {
    let counter = PinArc::new(0u32);
    for _ in 0..10 {
        let mut guard = write(&counter).unwrap();
        *guard.as_pin() += 1;
    }
    assert_eq!(*read(&counter).unwrap(), 10);
}

#[test]
fn arc_exclusive_guard_reads_what_it_wrote() {
    let arc = PinArc::new(1u32);
    let mut guard = write(&arc).unwrap();
    assert_eq!(*guard, 1);
    guard.as_pin().set(2);
    assert_eq!(*guard, 2);
    *PinRwLockWriteGuard::get_mut(&mut guard) = 3;
    assert_eq!(*guard, 3);
    drop(guard);
    assert_eq!(*read(&arc).unwrap(), 3);
}

#[test]
fn arc_pinned_view_does_not_move_the_value() {
    let arc = PinArc::new([0u8; 64]);
    let before = format!("{:p}", &*read(&arc).unwrap());
    write(&arc).unwrap().as_pin()[0] = 1;
    let moved_handle = arc.clone();
    drop(arc);
    let after = format!("{:p}", &*read(&moved_handle).unwrap());
    assert_eq!(before, after);
}

#[test]
fn arc_safe_unpin_gives_the_same_allocation() {
    let pinned = PinArc::new(String::from("x"));
    let keep = pinned.clone();
    let plain: Arc<RwLock<String>> = PinArc::safe_unpin(pinned);
    assert_eq!(Arc::strong_count(&plain), 2);
    plain.write().unwrap().push('y');
    assert_eq!(*read(&keep).unwrap(), "xy");
    assert!(Arc::ptr_eq(&plain, &PinArc::safe_unpin(keep)));
}

#[test]
fn arc_from_counted_lock_keeps_the_allocation() {
    let plain = Arc::new(RwLock::new(5u32));
    let pinned = PinArc::from(plain.clone());
    assert_eq!(PinArc::strong_count(&pinned), 2);
    *plain.write().unwrap() = 6;
    assert_eq!(*read(&pinned).unwrap(), 6);
    let hold = plain.write().unwrap();
    assert!(matches!(pinned.try_read(), Err(TryLockError::WouldBlock)));
    drop(hold);
    assert!(Arc::ptr_eq(&plain, &PinArc::safe_unpin(pinned)));
}

#[test]
fn arc_clean_wait_is_handed_on() {
    let lock = RwLock::new(17u32);
    let guard = PinRwLockReadGuard::from_read(Ok(lock.read().unwrap())).unwrap();
    assert_eq!(*guard, 17);
    assert!(lock.try_write().is_err());
    drop(guard);

    let mut guard = PinRwLockWriteGuard::from_write(Ok(lock.write().unwrap())).unwrap();
    *guard.as_pin() = 18;
    drop(guard);
    assert_eq!(*lock.read().unwrap(), 18);
}

#[test]
fn arc_poisoned_wait_still_gives_the_guard() {
    let lock = RwLock::new(17u32);

    let answer = PinRwLockWriteGuard::from_write(Err(PoisonError::new(lock.write().unwrap())));
    let mut guard = match answer {
        Ok(_) => panic!("the poison was dropped"),
        Err(poison) => poison.into_inner(),
    };
    *guard.as_pin() = 18;
    assert!(lock.try_read().is_err());
    drop(guard);
    assert_eq!(*lock.read().unwrap(), 18);

    let answer = PinRwLockReadGuard::from_read(Err(PoisonError::new(lock.read().unwrap())));
    match answer {
        Ok(_) => panic!("the poison was dropped"),
        Err(poison) => assert_eq!(**poison.get_ref(), 18),
    };
}

#[test]
fn arc_answers_without_waiting_are_handed_on() {
    let lock = RwLock::new(3u32);

    let clean = PinRwLockReadGuard::from_try_read(Ok(lock.read().unwrap()));
    assert_eq!(*clean.unwrap(), 3);
    let poisoned = PinRwLockReadGuard::from_try_read(Err(TryLockError::Poisoned(
        PoisonError::new(lock.read().unwrap()),
    )));
    match poisoned {
        Err(TryLockError::Poisoned(poison)) => assert_eq!(*poison.into_inner(), 3),
        _ => panic!("the poison was lost"),
    };
    let busy = PinRwLockReadGuard::<u32>::from_try_read(Err(TryLockError::WouldBlock));
    assert!(matches!(busy, Err(TryLockError::WouldBlock)));

    let clean = PinRwLockWriteGuard::from_try_write(Ok(lock.write().unwrap()));
    *clean.unwrap().as_pin() = 4;
    let poisoned = PinRwLockWriteGuard::from_try_write(Err(TryLockError::Poisoned(
        PoisonError::new(lock.write().unwrap()),
    )));
    match poisoned {
        Err(TryLockError::Poisoned(mut poison)) => {
            assert_eq!(**poison.get_ref(), 4);
            *poison.get_mut().as_pin() = 5;
            assert_eq!(*poison.into_inner(), 5);
        }
        _ => panic!("the poison was lost"),
    };
    let busy = PinRwLockWriteGuard::<u32>::from_try_write(Err(TryLockError::WouldBlock));
    assert!(matches!(busy, Err(TryLockError::WouldBlock)));
    assert_eq!(*lock.read().unwrap(), 5);
}

#[test]
fn poison_error_keeps_what_it_was_given() {
    let mut poison = PoisonError::new(41u32);
    assert_eq!(*poison.get_ref(), 41);
    *poison.get_mut() += 1;
    assert_eq!(*poison.get_ref(), 42);
    assert_eq!(poison.into_inner(), 42);
    assert!(format!("{:?}", PoisonError::new(1u8)).contains("PoisonError"));
}

#[test]
fn arc_holds_and_shows_a_value_that_must_not_move() {
    struct Anchored {
        mark: u32,
        _pin: std::marker::PhantomPinned,
    }
    let arc = PinArc::new(Anchored { mark: 77, _pin: std::marker::PhantomPinned });
    let before = format!("{:p}", &*arc.try_read().ok().unwrap());
    let other = arc.clone();
    let weak = PinArc::downgrade(&arc);
    drop(arc);
    assert_eq!(other.try_read().ok().unwrap().mark, 77);
    assert_eq!(weak.upgrade().unwrap().try_read().ok().unwrap().mark, 77);
    assert!(other.try_write().is_ok());
    assert_eq!(before, format!("{:p}", &*other.try_read().ok().unwrap()));
}

#[test]
fn arc_lent_lock_is_the_lock_of_the_allocation() {
    let arc = PinArc::new(9u32);
    let held = PinArc::rwlock(&arc).write().unwrap();
    assert!(matches!(arc.try_read(), Err(TryLockError::WouldBlock)));
    assert!(matches!(arc.clone().try_write(), Err(TryLockError::WouldBlock)));
    drop(held);
    *PinArc::rwlock(&arc).write().unwrap() = 10;
    assert_eq!(*arc.try_read().ok().unwrap(), 10);
    let guard = arc.try_write().ok().unwrap();
    assert!(PinArc::rwlock(&arc).try_read().is_err());
    drop(guard);
    assert!(!PinArc::rwlock(&arc).is_poisoned());
}
