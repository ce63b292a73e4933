use std::time::Duration;
use std::time::Instant;
use thread_handle::LockPoisoned;
use thread_handle::ThreadHandle;
use thread_handle::POLL_INTERVAL_MILLIS;

#[test]
fn polling_interval_is_ten_milliseconds() {
    assert_eq!(POLL_INTERVAL_MILLIS, 10);
}

#[test]
fn new_handle_is_neither_claimed_nor_up() {
    let handle = ThreadHandle::new();
    assert_eq!(handle.poll_thread_up(), Ok(false));
    assert_eq!(handle.thread_init(), Ok(true));
}

#[test]
fn two_new_handles_do_not_share_a_cell() {
    let first = ThreadHandle::new();
    let second = ThreadHandle::new();
    assert_eq!(first.thread_init(), Ok(true));
    assert_eq!(first.notify_thread_up(), Ok(()));
    assert_eq!(first.poll_thread_up(), Ok(true));
    assert_eq!(second.poll_thread_up(), Ok(false));
    assert_eq!(second.thread_init(), Ok(true));
}

#[test]
fn first_claim_wins_and_later_claims_lose() {
    let handle = ThreadHandle::new();
    assert_eq!(handle.thread_init(), Ok(true));
    assert_eq!(handle.thread_init(), Ok(false));
    assert_eq!(handle.thread_init(), Ok(false));
}

#[test]
fn claim_does_not_make_the_thread_up() {
    let handle = ThreadHandle::new();
    assert_eq!(handle.thread_init(), Ok(true));
    assert_eq!(handle.poll_thread_up(), Ok(false));
    assert_eq!(handle.thread_init(), Ok(false));
    assert_eq!(handle.poll_thread_up(), Ok(false));
}

#[test]
fn claims_through_many_copies_have_one_winner() {
    let handle = ThreadHandle::new();
    let copies: Vec<ThreadHandle> = (0..16).map(|_| handle.clone()).collect();
    let mut results = Vec::new();
    for copy in copies.iter() {
        results.push(copy.thread_init());
    }
    assert_eq!(results[0], Ok(true));
    assert_eq!(results.iter().filter(|won| **won == Ok(true)).count(), 1);
    assert_eq!(results.iter().filter(|won| **won == Ok(false)).count(), 15);
    assert_eq!(handle.thread_init(), Ok(false));
}

#[test]
fn claim_after_announce_loses() {
    let handle = ThreadHandle::new();
    assert_eq!(handle.notify_thread_up(), Ok(()));
    assert_eq!(handle.thread_init(), Ok(false));
    assert_eq!(handle.poll_thread_up(), Ok(true));
}

#[test]
fn announce_needs_no_claim() {
    let handle = ThreadHandle::new();
    assert_eq!(handle.notify_thread_up(), Ok(()));
    assert_eq!(handle.poll_thread_up(), Ok(true));
}

#[test]
fn status_never_goes_back_from_up() {
    let handle = ThreadHandle::new();
    assert_eq!(handle.thread_init(), Ok(true));
    assert_eq!(handle.notify_thread_up(), Ok(()));
    assert_eq!(handle.poll_thread_up(), Ok(true));
    assert_eq!(handle.thread_init(), Ok(false));
    assert_eq!(handle.poll_thread_up(), Ok(true));
    assert_eq!(handle.notify_thread_up(), Ok(()));
    assert_eq!(handle.poll_thread_up(), Ok(true));
    assert_eq!(handle.thread_init(), Ok(false));
    assert_eq!(handle.poll_thread_up(), Ok(true));
}

#[test]
fn announce_twice_leaves_up() {
    let handle = ThreadHandle::new();
    assert_eq!(handle.notify_thread_up(), Ok(()));
    assert_eq!(handle.poll_thread_up(), Ok(true));
    assert_eq!(handle.notify_thread_up(), Ok(()));
    assert_eq!(handle.poll_thread_up(), Ok(true));
}

#[test]
fn poll_reports_false_until_announced() {
    let handle = ThreadHandle::new();
    assert_eq!(handle.poll_thread_up(), Ok(false));
    assert_eq!(handle.thread_init(), Ok(true));
    assert_eq!(handle.poll_thread_up(), Ok(false));
    assert_eq!(handle.notify_thread_up(), Ok(()));
    assert_eq!(handle.poll_thread_up(), Ok(true));
}

#[test]
fn poll_does_not_change_the_status() {
    let handle = ThreadHandle::new();
    assert_eq!(handle.poll_thread_up(), Ok(false));
    assert_eq!(handle.poll_thread_up(), Ok(false));
    assert_eq!(handle.thread_init(), Ok(true));
    assert_eq!(handle.poll_thread_up(), Ok(false));
    assert_eq!(handle.thread_init(), Ok(false));
}

#[test]
fn poll_of_a_pending_cell_sleeps_for_the_interval() {
    let handle = ThreadHandle::new();
    assert_eq!(handle.thread_init(), Ok(true));
    let mut longest = Duration::from_millis(0);
    for _ in 0..3 {
        let start = Instant::now();
        assert_eq!(handle.poll_thread_up(), Ok(false));
        longest = longest.max(start.elapsed());
    }
    assert!(longest >= Duration::from_millis(POLL_INTERVAL_MILLIS));
}

#[test]
fn poll_of_an_announced_cell_returns_at_once() {
    let handle = ThreadHandle::new();
    assert_eq!(handle.notify_thread_up(), Ok(()));
    let mut shortest = Duration::from_secs(1);
    for _ in 0..3 {
        let start = Instant::now();
        assert_eq!(handle.poll_thread_up(), Ok(true));
        shortest = shortest.min(start.elapsed());
    }
    assert!(shortest < Duration::from_millis(POLL_INTERVAL_MILLIS));
}

#[test]
fn announce_through_one_copy_is_seen_through_another() {
    let handle = ThreadHandle::new();
    let announcer = handle.clone();
    let waiter = handle.clone();
    assert_eq!(waiter.poll_thread_up(), Ok(false));
    assert_eq!(announcer.notify_thread_up(), Ok(()));
    assert_eq!(waiter.poll_thread_up(), Ok(true));
    assert_eq!(handle.poll_thread_up(), Ok(true));
}

#[test]
fn claim_through_one_copy_is_seen_through_another() {
    let handle = ThreadHandle::new();
    let copy = handle.clone().clone();
    assert_eq!(copy.thread_init(), Ok(true));
    assert_eq!(handle.thread_init(), Ok(false));
}

#[test]
fn cell_outlives_the_copy_that_changed_it() {
    let handle = ThreadHandle::new();
    let copy = handle.clone();
    assert_eq!(copy.thread_init(), Ok(true));
    assert_eq!(copy.notify_thread_up(), Ok(()));
    drop(copy);
    assert_eq!(handle.thread_init(), Ok(false));
    assert_eq!(handle.poll_thread_up(), Ok(true));
}

#[test]
fn worker_claims_and_announces_while_owner_waits() {
    let handle = ThreadHandle::new();
    let worker = handle.clone();
    let claimed = Instant::now();
    assert_eq!(worker.thread_init(), Ok(true));
    assert_eq!(handle.thread_init(), Ok(false));
    while claimed.elapsed() < Duration::from_millis(50) {
        assert_eq!(handle.poll_thread_up(), Ok(false));
    }
    assert_eq!(worker.notify_thread_up(), Ok(()));
    assert_eq!(handle.poll_thread_up(), Ok(true));
    assert!(claimed.elapsed() >= Duration::from_millis(50));
    assert_eq!(handle.thread_init(), Ok(false));
}

#[test]
fn lock_is_free_again_after_each_operation() {
    let handle = ThreadHandle::new();
    assert_eq!(handle.thread_init(), Ok(true));
    assert_eq!(handle.poll_thread_up(), Ok(false));
    assert_eq!(handle.notify_thread_up(), Ok(()));
    assert_eq!(handle.poll_thread_up(), Ok(true));
    assert_eq!(handle.thread_init(), Ok(false));
}

#[test]
fn poisoned_error_compares_and_prints() {
    let error: Result<bool, LockPoisoned> = Err(LockPoisoned);
    assert_ne!(error, Ok(false));
    assert_eq!(format!("{:?}", LockPoisoned), "LockPoisoned");
}
