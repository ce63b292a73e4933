use thread_handle::ThreadStatus;

#[test]
fn initial_status_is_uninitialized() {
    assert_eq!(ThreadStatus::initial(), ThreadStatus::Uninitialized);
}

#[test]
fn claim_of_uninitialized_wins_and_leaves_pending() {
    let mut status = ThreadStatus::Uninitialized;
    assert!(status.claim());
    assert_eq!(status, ThreadStatus::Pending);
}

#[test]
fn claim_of_pending_loses_and_changes_nothing() {
    let mut status = ThreadStatus::Pending;
    assert!(!status.claim());
    assert_eq!(status, ThreadStatus::Pending);
}

#[test]
fn claim_of_up_loses_and_changes_nothing() {
    let mut status = ThreadStatus::Up;
    assert!(!status.claim());
    assert_eq!(status, ThreadStatus::Up);
}

#[test]
fn announce_leads_to_up_from_every_status() {
    for start in [ThreadStatus::Uninitialized, ThreadStatus::Pending, ThreadStatus::Up] {
        let mut status = start;
        status.announce();
        assert_eq!(status, ThreadStatus::Up);
    }
}

#[test]
fn announce_twice_stays_up() {
    let mut status = ThreadStatus::Pending;
    status.announce();
    assert_eq!(status, ThreadStatus::Up);
    status.announce();
    assert_eq!(status, ThreadStatus::Up);
}

#[test]
fn only_up_is_up() {
    assert!(!ThreadStatus::Uninitialized.is_up());
    assert!(!ThreadStatus::Pending.is_up());
    assert!(ThreadStatus::Up.is_up());
}

#[test]
fn no_operation_leads_out_of_up() {
    let mut status = ThreadStatus::Up;
    assert!(!status.claim());
    status.announce();
    assert!(!status.claim());
    assert!(status.is_up());
}
