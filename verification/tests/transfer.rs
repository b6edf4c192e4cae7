use pipe_stream::transfer::{Failure, Phase, Transfer};

#[test]
fn new_transfer_is_idle() {
    let t = Transfer::new();
    assert_eq!(t.phase(), Phase::Idle);
    assert_eq!(t.failure(), None);
    assert_eq!(t.outcome(), None);
}

#[test]
fn both_sides_succeed() {
    let mut t = Transfer::new();
    assert!(t.start());
    assert_eq!(t.phase(), Phase::Streaming);
    assert!(t.producer_finished(true));
    assert_eq!(t.phase(), Phase::Streaming);
    assert_eq!(t.outcome(), None);
    assert!(t.transmitter_finished(true));
    assert_eq!(t.phase(), Phase::Completed);
    assert_eq!(t.failure(), None);
    assert_eq!(t.outcome(), Some(Ok(())));
}

#[test]
fn transmitter_may_finish_first() {
    let mut t = Transfer::new();
    assert!(t.start());
    assert!(t.transmitter_finished(true));
    assert_eq!(t.phase(), Phase::Streaming);
    assert!(t.producer_finished(true));
    assert_eq!(t.phase(), Phase::Completed);
    assert_eq!(t.outcome(), Some(Ok(())));
}

#[test]
fn producer_failure_is_seen_at_once_and_kept() {
    let mut t = Transfer::new();
    assert!(t.start());
    assert!(t.producer_finished(false));
    assert_eq!(t.failure(), Some(Failure::Serialization));
    assert_eq!(t.phase(), Phase::Streaming);
    assert_eq!(t.outcome(), None);
    assert!(t.transmitter_finished(true));
    assert_eq!(t.phase(), Phase::Completed);
    assert_eq!(t.outcome(), Some(Err(Failure::Serialization)));
}

#[test]
fn transport_failure_is_reported() {
    let mut t = Transfer::new();
    assert!(t.start());
    assert!(t.producer_finished(true));
    assert!(t.transmitter_finished(false));
    assert_eq!(t.outcome(), Some(Err(Failure::Transport)));
}

#[test]
fn first_of_two_failures_wins() {
    let mut t = Transfer::new();
    assert!(t.start());
    assert!(t.transmitter_finished(false));
    assert!(t.producer_finished(false));
    assert_eq!(t.outcome(), Some(Err(Failure::Transport)));

    let mut u = Transfer::new();
    assert!(u.start());
    assert!(u.producer_finished(false));
    assert!(u.transmitter_finished(false));
    assert_eq!(u.outcome(), Some(Err(Failure::Serialization)));
}

#[test]
fn nothing_finishes_before_the_start() {
    let mut t = Transfer::new();
    assert!(!t.producer_finished(false));
    assert!(!t.transmitter_finished(false));
    assert_eq!(t.phase(), Phase::Idle);
    assert_eq!(t.failure(), None);
}

#[test]
fn start_is_accepted_once() {
    let mut t = Transfer::new();
    assert!(t.start());
    assert!(!t.start());
    assert_eq!(t.phase(), Phase::Streaming);
    assert!(t.producer_finished(true));
    assert!(t.transmitter_finished(true));
    assert!(!t.start());
    assert_eq!(t.phase(), Phase::Completed);
}

#[test]
fn a_side_finishes_once() {
    let mut t = Transfer::new();
    assert!(t.start());
    assert!(t.producer_finished(true));
    assert!(!t.producer_finished(false));
    assert_eq!(t.failure(), None);
    assert!(t.transmitter_finished(true));
    assert!(!t.transmitter_finished(false));
    assert_eq!(t.outcome(), Some(Ok(())));
}

#[test]
fn completed_is_terminal() {
    let mut t = Transfer::new();
    assert!(t.start());
    assert!(t.producer_finished(true));
    assert!(t.transmitter_finished(false));
    for _ in 0..3 {
        assert!(!t.start());
        assert!(!t.producer_finished(true));
        assert!(!t.transmitter_finished(true));
        assert_eq!(t.phase(), Phase::Completed);
        assert_eq!(t.outcome(), Some(Err(Failure::Transport)));
    }
}
