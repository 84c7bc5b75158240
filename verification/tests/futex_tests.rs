use chronix::errno::SysError;
use chronix::futex::{
    futex_flags, futex_key, futex_wait_finish, futex_wait_timeout, sys_futex, wake_op_args,
    wake_op_argument, wake_op_check, wake_op_new_value, FutexHashKey, FutexManager, FutexOp,
    FutexStep, FutexWaitPlan, FutexWaiter, XorHasher, FUTEX_BITSET_MATCH_ANY,
};
use chronix::futex::{wake_op_cas_step, WakeOpCas, WAKE_OP_SPIN_LIMIT};
use chronix::duration::Duration;
use chronix::time::TimeSpec;

fn key() -> FutexHashKey {
    FutexHashKey::Private { mm: 1, vaddr: 0x1000 }
}

fn tids(v: &[FutexWaiter]) -> Vec<usize> {
    v.iter().map(|w| w.tid).collect()
}

#[test]
fn op_word_is_taken_apart() {
    assert_eq!(futex_flags(0x80 | 1), (true, false, FutexOp::Wake));
    assert_eq!(futex_flags(0x100 | 9), (false, true, FutexOp::WaitBitset));
    assert_eq!(futex_flags(0x180 | 5), (true, true, FutexOp::WakeOp));
    assert_eq!(futex_flags(42), (false, false, FutexOp::Undefined));
    assert_eq!(FutexOp::from(10), FutexOp::WakeBitset);
}

#[test]
fn keys_of_private_and_shared_futexes() {
    assert_eq!(futex_key(true, 3, 0x2000, None), Ok(FutexHashKey::Private { mm: 3, vaddr: 0x2000 }));
    assert_eq!(futex_key(false, 3, 0x2000, Some(0x8000)), Ok(FutexHashKey::Shared { paddr: 0x8000 }));
    assert_eq!(futex_key(false, 3, 0x2000, None), Err(SysError::EINVAL));
}

#[test]
fn wake_takes_waiters_in_queue_order() {
    let mut fm = FutexManager::new();
    for tid in 1..=4 {
        fm.add_waiter(&key(), FutexWaiter { tid, mask: FUTEX_BITSET_MATCH_ANY });
    }
    assert_eq!(tids(&fm.wake(&key(), 2).unwrap()), vec![1, 2]);
    assert_eq!(tids(&fm.wake(&key(), 10).unwrap()), vec![3, 4]);
    assert_eq!(tids(&fm.wake(&key(), 10).unwrap()), Vec::<usize>::new());
    // nobody ever waited there: nothing is woken
    assert_eq!(fm.wake(&FutexHashKey::Shared { paddr: 5 }, 1).map(|v| v.len()), Ok(0));
}

#[test]
fn remove_waiter_takes_the_first_occurrence() {
    let mut fm = FutexManager::new();
    fm.add_waiter(&key(), FutexWaiter { tid: 1, mask: 1 });
    fm.add_waiter(&key(), FutexWaiter { tid: 2, mask: 2 });
    assert_eq!(fm.remove_waiter(&key(), 2), Some(FutexWaiter { tid: 2, mask: 2 }));
    assert_eq!(fm.remove_waiter(&key(), 2), None);
    assert_eq!(fm.remove_waiter(&FutexHashKey::Shared { paddr: 1 }, 1), None);
    assert_eq!(tids(&fm.wake(&key(), 5).unwrap()), vec![1]);
}

#[test]
fn requeue_moves_waiters_to_the_back_of_the_target() {
    let mut fm = FutexManager::new();
    let target = FutexHashKey::Shared { paddr: 0x9000 };
    fm.add_waiter(&target, FutexWaiter { tid: 9, mask: 1 });
    for tid in 1..=3 {
        fm.add_waiter(&key(), FutexWaiter { tid, mask: 1 });
    }
    assert_eq!(fm.requeue_waiters(key(), target, 2), Ok(2));
    assert_eq!(tids(&fm.wake(&target, 10).unwrap()), vec![9, 1, 2]);
    assert_eq!(tids(&fm.wake(&key(), 10).unwrap()), vec![3]);
    assert_eq!(fm.requeue_waiters(FutexHashKey::Shared { paddr: 1 }, target, 1), Err(SysError::EINVAL));
}

#[test]
fn requeue_of_everything_removes_the_source_queue() {
    let mut fm = FutexManager::new();
    let target = FutexHashKey::Shared { paddr: 0x9000 };
    fm.add_waiter(&key(), FutexWaiter { tid: 1, mask: 1 });
    assert_eq!(fm.requeue_waiters(key(), target, 5), Ok(1));
    assert_eq!(fm.wake(&key(), 1).map(|v| v.len()), Ok(0));
    assert_eq!(tids(&fm.wake(&target, 1).unwrap()), vec![1]);
}

#[test]
fn requeue_onto_the_same_futex_keeps_the_queue() {
    let mut fm = FutexManager::new();
    fm.add_waiter(&key(), FutexWaiter { tid: 1, mask: 1 });
    fm.add_waiter(&key(), FutexWaiter { tid: 2, mask: 1 });
    assert_eq!(fm.requeue_waiters(key(), key(), 1), Ok(1));
    assert_eq!(tids(&fm.wake(&key(), 10).unwrap()), vec![1, 2]);
}

#[test]
fn wake_of_a_futex_nobody_waits_on() {
    let mut fm = FutexManager::new();
    match sys_futex(&mut fm, FutexOp::Wake, key(), Err(SysError::EINVAL), 3, 0, 0, 0, 0, 1) {
        Ok(FutexStep::Done { result, woken }) => {
            assert_eq!(result, 0);
            assert!(woken.is_empty());
        }
        _ => panic!("wake failed"),
    }
}

#[test]
fn wake_op_compare_and_swap_rounds() {
    assert_eq!(wake_op_cas_step(0, Ok(())), WakeOpCas::Done);
    assert_eq!(wake_op_cas_step(3, Err(42)), WakeOpCas::Retry { oldval: 42, spins: 4 });
    assert_eq!(wake_op_cas_step(WAKE_OP_SPIN_LIMIT, Err(42)), WakeOpCas::Retry { oldval: 42, spins: WAKE_OP_SPIN_LIMIT + 1 });
    assert_eq!(wake_op_cas_step(WAKE_OP_SPIN_LIMIT + 1, Err(42)), WakeOpCas::Busy);
}

#[test]
fn wake_bitset_wakes_one_matching_waiter() {
    let mut fm = FutexManager::new();
    fm.add_waiter(&key(), FutexWaiter { tid: 1, mask: 0b01 });
    fm.add_waiter(&key(), FutexWaiter { tid: 2, mask: 0b10 });
    // the mask tested is that of the last waiter, the waiter woken the first
    assert_eq!(tids(&fm.wake_bitset(&key(), 1, 0b10).unwrap()), vec![1]);
    assert_eq!(tids(&fm.wake(&key(), 5).unwrap()), vec![2]);
}

#[test]
fn wait_joins_the_queue_when_the_word_matches() {
    let mut fm = FutexManager::new();
    let r = sys_futex(&mut fm, FutexOp::Wait, key(), Err(SysError::EINVAL), 5, 0, 0, 5, 0, 77);
    assert!(matches!(r, Ok(FutexStep::Wait)));
    let r = sys_futex(&mut fm, FutexOp::Wait, key(), Err(SysError::EINVAL), 5, 0, 0, 6, 0, 78);
    assert!(matches!(r, Err(SysError::EAGAIN)));
    let r = sys_futex(&mut fm, FutexOp::WaitBitset, key(), Err(SysError::EINVAL), 5, 0, 0, 5, 0, 79);
    assert!(matches!(r, Err(SysError::EINVAL)));
    match sys_futex(&mut fm, FutexOp::Wake, key(), Err(SysError::EINVAL), 1, 0, 0, 0, 0, 1) {
        Ok(FutexStep::Done { result, woken }) => {
            assert_eq!(result, 1);
            assert_eq!(woken, vec![FutexWaiter { tid: 77, mask: FUTEX_BITSET_MATCH_ANY }]);
        }
        _ => panic!("wake failed"),
    }
}

#[test]
fn unsupported_operations_are_invalid() {
    let mut fm = FutexManager::new();
    for op in [FutexOp::Fd, FutexOp::LockPi, FutexOp::UnlockPi, FutexOp::TryLockPi, FutexOp::WaitBitsetPi, FutexOp::Undefined] {
        let r = sys_futex(&mut fm, op, key(), Err(SysError::EINVAL), 1, 0, 0, 0, 0, 1);
        assert!(matches!(r, Err(SysError::EINVAL)));
    }
}

#[test]
fn cmp_requeue_checks_the_word() {
    let mut fm = FutexManager::new();
    let target = FutexHashKey::Shared { paddr: 0x9000 };
    for tid in 1..=3 {
        fm.add_waiter(&key(), FutexWaiter { tid, mask: 1 });
    }
    let r = sys_futex(&mut fm, FutexOp::CmpRequeue, key(), Ok(target), 1, 1, 4, 3, 0, 0);
    assert!(matches!(r, Err(SysError::EAGAIN)));
    match sys_futex(&mut fm, FutexOp::CmpRequeue, key(), Ok(target), 1, 1, 4, 4, 0, 0) {
        Ok(FutexStep::Done { result, woken }) => {
            assert_eq!(result, 1);
            assert_eq!(tids(&woken), vec![1]);
        }
        _ => panic!("requeue failed"),
    }
    assert_eq!(tids(&fm.wake(&target, 5).unwrap()), vec![2]);
    assert_eq!(tids(&fm.wake(&key(), 5).unwrap()), vec![3]);
}

#[test]
fn wake_op_fields_and_arithmetic() {
    // op = ADD with shift flag (8 | 1), cmp = GT (4), oparg = 3, cmparg = 7
    let val3: u32 = (9 << 28) | (4 << 24) | (3 << 12) | 7;
    assert_eq!(wake_op_args(val3), (9, 4, 3, 7));
    assert_eq!(wake_op_argument(9, 3), 8);
    assert_eq!(wake_op_argument(1, 3), 3);
    assert_eq!(wake_op_new_value(9, 8, 10), 18);
    assert_eq!(wake_op_new_value(0, 8, 10), 8);
    assert_eq!(wake_op_new_value(2, 1, 10), 11);
    assert_eq!(wake_op_new_value(3, 2, 10), 8);
    assert_eq!(wake_op_new_value(4, 3, 10), 9);
    assert_eq!(wake_op_new_value(1, 1, u32::MAX), 0);
    assert!(wake_op_check(4, 10, 7));
    assert!(!wake_op_check(0, 10, 7));
    assert!(wake_op_check(1, 10, 7));
    assert!(!wake_op_check(2, 10, 7));
    assert!(wake_op_check(3, 7, 7));
    assert!(wake_op_check(5, 7, 7));
}

#[test]
fn wake_op_wakes_more_of_the_same_futex_when_the_check_passes() {
    let mut fm = FutexManager::new();
    for tid in 1..=4 {
        fm.add_waiter(&key(), FutexWaiter { tid, mask: 1 });
    }
    let val3: u32 = (1 << 28) | (4 << 24) | (1 << 12) | 7; // ADD 1, GT 7
    match sys_futex(&mut fm, FutexOp::WakeOp, key(), Ok(FutexHashKey::Shared { paddr: 3 }), 1, 2, val3, 0, 10, 0) {
        Ok(FutexStep::Done { result, woken }) => {
            assert_eq!(result, 3);
            assert_eq!(tids(&woken), vec![1, 2, 3]);
        }
        _ => panic!("wake-op failed"),
    }
    match sys_futex(&mut fm, FutexOp::WakeOp, key(), Ok(FutexHashKey::Shared { paddr: 3 }), 0, 2, val3, 0, 5, 0) {
        Ok(FutexStep::Done { result, woken }) => {
            assert_eq!(result, 0);
            assert!(woken.is_empty());
        }
        _ => panic!("wake-op failed"),
    }
}

#[test]
fn wait_timeouts() {
    let mut fm = FutexManager::new();
    fm.add_waiter(&key(), FutexWaiter { tid: 5, mask: 1 });
    let bad = TimeSpec { tv_sec: 1, tv_nsec: 1_000_000_000 };
    assert!(matches!(futex_wait_timeout(&mut fm, &key(), 5, bad, false, Duration::zero()), Err(SysError::EINVAL)));
    let ts = TimeSpec { tv_sec: 2, tv_nsec: 500 };
    match futex_wait_timeout(&mut fm, &key(), 5, ts, false, Duration::new(1, 0)) {
        Ok(FutexWaitPlan::Sleep(d)) => assert_eq!((d.as_secs(), d.subsec_nanos()), (2, 500)),
        _ => panic!("expected a sleep"),
    }
    match futex_wait_timeout(&mut fm, &key(), 5, ts, true, Duration::new(1, 0)) {
        Ok(FutexWaitPlan::Sleep(d)) => assert_eq!((d.as_secs(), d.subsec_nanos()), (1, 500)),
        _ => panic!("expected a sleep"),
    }
    assert!(matches!(futex_wait_timeout(&mut fm, &key(), 5, ts, true, Duration::new(3, 0)), Err(SysError::ETIMEOUT)));
    assert!(matches!(futex_wait_timeout(&mut fm, &key(), 5, ts, true, Duration::new(3, 0)), Ok(FutexWaitPlan::Finish(0))));
}

#[test]
fn wait_endings() {
    let mut fm = FutexManager::new();
    fm.add_waiter(&key(), FutexWaiter { tid: 5, mask: 1 });
    fm.add_waiter(&key(), FutexWaiter { tid: 6, mask: 1 });
    assert_eq!(futex_wait_finish(&mut fm, &key(), 5, true, false), Err(SysError::ETIMEOUT));
    assert_eq!(futex_wait_finish(&mut fm, &key(), 6, false, true), Err(SysError::EINTR));
    assert_eq!(futex_wait_finish(&mut fm, &key(), 6, false, true), Ok(0));
    assert_eq!(futex_wait_finish(&mut fm, &key(), 6, false, false), Ok(0));
}

#[test]
fn xor_hasher_mixes_eight_byte_chunks() {
    let mut h = XorHasher::new();
    assert_eq!(h.finish(), 114514);
    h.write(&[1, 2]);
    assert_eq!(h.finish(), 114514 ^ (31 + 0x0102));
    let mut g = XorHasher::new();
    g.write(&[0, 0, 0, 0, 0, 0, 0, 1, 5]);
    assert_eq!(g.finish(), (114514 ^ (31 + 1)) ^ (31 + 5));
}

#[test]
fn mask_wake_is_checked_beforehand() {
    let mut fm = FutexManager::new();
    fm.add_waiter(&key(), FutexWaiter { tid: 1, mask: 0b01 });
    fm.add_waiter(&key(), FutexWaiter { tid: 2, mask: 0b10 });
    // a second round would test past the end of the shortened queue
    assert!(!fm.can_wake_bitset(&key(), 2, 0b11));
    assert!(fm.can_wake_bitset(&key(), 1, 0b11));
    assert!(fm.can_wake_bitset(&FutexHashKey::Shared { paddr: 77 }, 5, 1));
    // the check leaves the queue as it was
    assert_eq!(tids(&fm.wake_bitset(&key(), 1, 0b11).unwrap()), vec![1]);
    assert_eq!(tids(&fm.wake(&key(), 5).unwrap()), vec![2]);
}
