use semaphore::name::{random_name, SEM_NAME_MAX};
use semaphore::sem::{needs_wake, park_error};
use semaphore::word::{
    add_waiter, claim_as_waiter, pack_word, permits_of, take_permit, waiters_of, ONE_WAITER,
};
use semaphore::{Semaphore, WaitError, WaitStep};

fn drain(s: &Semaphore, n: u32) {
    for _ in 0..n {
        assert_eq!(s.try_wait(), Ok(()));
    }
    assert_eq!(s.try_wait(), Err(WaitError::WouldBlock));
    assert_eq!(s.try_wait(), Err(WaitError::WouldBlock));
}

#[test]
fn n_permits_then_would_block() {
    for n in [0u32, 1, 2, 7, 1000] {
        let s = Semaphore::new(n);
        drain(&s, n);
    }
}

#[test]
fn zero_permits_would_block_at_once() {
    let s = Semaphore::new(0);
    assert_eq!(s.try_wait(), Err(WaitError::WouldBlock));
}

#[test]
fn take_post_take_as_mutex() {
    let s = Semaphore::new(1);
    assert_eq!(s.try_wait(), Ok(()));
    assert_eq!(s.try_wait(), Err(WaitError::WouldBlock));
    assert!(!s.add_permit());
    assert_eq!(s.try_wait(), Ok(()));
    assert_eq!(s.try_wait(), Err(WaitError::WouldBlock));
}

#[test]
fn posts_add_up() {
    let s = Semaphore::new(0);
    for _ in 0..5 {
        assert!(!s.add_permit());
    }
    drain(&s, 5);
}

#[test]
fn word_halves() {
    let d = pack_word(3, 5);
    assert_eq!(d, 3 * ONE_WAITER + 5);
    assert_eq!(permits_of(d), 5);
    assert_eq!(waiters_of(d), 3);
    let m = pack_word(u32::MAX, u32::MAX);
    assert_eq!(m, u64::MAX);
    assert_eq!(permits_of(m), 0xffff_ffff);
    assert_eq!(waiters_of(m), 0xffff_ffff);
}

#[test]
fn take_permit_lowers_permits_only() {
    assert_eq!(take_permit(pack_word(2, 0)), None);
    assert_eq!(take_permit(pack_word(2, 1)), Some(pack_word(2, 0)));
    assert_eq!(take_permit(pack_word(0, 9)), Some(pack_word(0, 8)));
}

#[test]
fn claim_lowers_both_halves() {
    assert_eq!(claim_as_waiter(pack_word(1, 1)), Some(0));
    assert_eq!(claim_as_waiter(pack_word(4, 2)), Some(pack_word(3, 1)));
    assert_eq!(claim_as_waiter(pack_word(0, 1)), None);
    assert_eq!(claim_as_waiter(pack_word(3, 0)), None);
}

#[test]
fn add_waiter_raises_waiters_only() {
    assert_eq!(add_waiter(pack_word(0, 7)), pack_word(1, 7));
    assert_eq!(add_waiter(pack_word(5, 0)), pack_word(6, 0));
    assert_eq!(add_waiter(pack_word(u32::MAX, 0)), 0);
}

#[test]
fn wake_only_with_waiters() {
    assert!(!needs_wake(pack_word(0, 0)));
    assert!(!needs_wake(pack_word(0, 5)));
    assert!(needs_wake(pack_word(1, 0)));
    assert!(needs_wake(pack_word(2, 3)));
}

#[test]
fn park_errors() {
    assert_eq!(park_error(Ok(())), None);
    assert_eq!(park_error(Err(WaitError::Interrupted)), Some(WaitError::Interrupted));
    assert_eq!(park_error(Err(WaitError::TimedOut)), Some(WaitError::TimedOut));
    assert_eq!(park_error(Err(WaitError::WouldBlock)), None);
    assert_eq!(park_error(Err(WaitError::Unknown)), Some(WaitError::Unknown));
}

#[test]
fn timed_out_waiter_leaves_without_a_permit() {
    let s = Semaphore::new(0);
    let d = s.begin_wait();
    assert_eq!(d, pack_word(1, 0));
    assert_eq!(s.wait_step(d), WaitStep::Park);
    assert_eq!(s.end_park(Err(WaitError::TimedOut)), Err(WaitError::TimedOut));
    assert_eq!(s.try_wait(), Err(WaitError::WouldBlock));
    assert_eq!(s.begin_wait(), pack_word(1, 0));
}

#[test]
fn interrupted_waiter_leaves_without_a_permit() {
    let s = Semaphore::new(0);
    let d = s.begin_wait();
    assert_eq!(s.wait_step(d), WaitStep::Park);
    assert_eq!(s.end_park(Err(WaitError::Interrupted)), Err(WaitError::Interrupted));
    assert!(!s.add_permit());
    assert_eq!(s.try_wait(), Ok(()));
}

#[test]
fn post_wakes_parked_waiter_which_claims() {
    let s = Semaphore::new(0);
    let d = s.begin_wait();
    assert_eq!(s.wait_step(d), WaitStep::Park);
    assert!(s.add_permit());
    let now = s.end_park(Ok(())).unwrap();
    assert_eq!(now, pack_word(1, 1));
    assert_eq!(s.wait_step(now), WaitStep::Acquired);
    assert_eq!(s.try_wait(), Err(WaitError::WouldBlock));
    assert_eq!(s.begin_wait(), pack_word(1, 0));
}

#[test]
fn stale_word_is_retried() {
    let s = Semaphore::new(1);
    let d = s.begin_wait();
    assert_eq!(d, pack_word(1, 1));
    assert!(s.add_permit());
    assert_eq!(s.wait_step(d), WaitStep::Retry(pack_word(1, 2)));
    assert_eq!(s.wait_step(pack_word(1, 2)), WaitStep::Acquired);
    assert_eq!(s.try_wait(), Ok(()));
    assert_eq!(s.try_wait(), Err(WaitError::WouldBlock));
}

#[test]
fn park_refused_looks_again() {
    let s = Semaphore::new(0);
    let d = s.begin_wait();
    assert_eq!(s.wait_step(d), WaitStep::Park);
    assert_eq!(s.end_park(Err(WaitError::WouldBlock)), Ok(pack_word(1, 0)));
    assert_eq!(s.end_park(Ok(())), Ok(pack_word(1, 0)));
}

#[test]
fn unknown_park_failure_ends_the_wait() {
    let s = Semaphore::new(0);
    let d = s.begin_wait();
    assert_eq!(s.wait_step(d), WaitStep::Park);
    assert_eq!(s.end_park(Err(WaitError::Unknown)), Err(WaitError::Unknown));
    assert_eq!(s.begin_wait(), pack_word(1, 0));
}

#[test]
fn try_claim_on_seen_word() {
    let s = Semaphore::new(2);
    assert_eq!(s.try_claim(pack_word(0, 0)), Err(WaitError::WouldBlock));
    assert_eq!(s.try_claim(pack_word(0, 1)), Err(WaitError::WouldBlock));
    assert_eq!(s.try_claim(pack_word(0, 2)), Ok(()));
    assert_eq!(s.try_claim(pack_word(0, 1)), Ok(()));
    assert_eq!(s.try_claim(pack_word(0, 0)), Err(WaitError::WouldBlock));
    assert_eq!(s.try_wait(), Err(WaitError::WouldBlock));
}

#[test]
fn random_names_are_letters_and_digits() {
    let a = random_name();
    let b = random_name();
    assert_eq!(a.len(), SEM_NAME_MAX);
    assert_eq!(b.len(), 28);
    assert!(a.iter().all(|c| c.is_ascii_alphanumeric()));
    assert!(b.iter().all(|c| c.is_ascii_alphanumeric()));
    assert_ne!(a, b);
}

#[test]
fn largest_count() {
    let s = Semaphore::new(u32::MAX);
    assert_eq!(s.try_wait(), Ok(()));
    assert!(!s.add_permit());
    assert_eq!(s.try_wait(), Ok(()));
    let d = s.begin_wait();
    assert_eq!(d, pack_word(1, u32::MAX - 1));
    assert_eq!(s.wait_step(d), WaitStep::Acquired);
    assert_eq!(s.begin_wait(), pack_word(1, u32::MAX - 2));
}

#[test]
fn interleaved_posts_and_claims_balance() {
    let s = Semaphore::new(0);
    let n: u32 = 4;
    let mut words = Vec::new();
    for _ in 0..n {
        let d = s.begin_wait();
        assert_eq!(s.wait_step(d), WaitStep::Park);
        words.push(d);
    }
    assert_eq!(s.begin_wait(), pack_word(n + 1, 0));
    assert_eq!(s.end_park(Err(WaitError::TimedOut)), Err(WaitError::TimedOut));
    for i in 0..n {
        assert!(s.add_permit());
        let now = s.end_park(Ok(())).unwrap();
        assert_eq!(now, pack_word(n - i, 1));
        assert_eq!(s.wait_step(now), WaitStep::Acquired);
    }
    assert_eq!(s.try_wait(), Err(WaitError::WouldBlock));
    assert!(!s.add_permit());
    assert_eq!(s.try_wait(), Ok(()));
    assert_eq!(s.try_wait(), Err(WaitError::WouldBlock));
}
