use xmc4000_sequence::poll::poll_step;
use xmc4000_sequence::poll::PollDecision;

#[test]
fn pending_up_to_and_including_the_deadline() {
    assert_eq!(poll_step(false, 0, 500), PollDecision::Pending);
    assert_eq!(poll_step(false, 499, 500), PollDecision::Pending);
    assert_eq!(poll_step(false, 500, 500), PollDecision::Pending);
}

#[test]
fn timed_out_strictly_after_the_deadline() {
    assert_eq!(poll_step(false, 501, 500), PollDecision::TimedOut);
    assert_eq!(poll_step(false, u64::MAX, 500), PollDecision::TimedOut);
    assert_eq!(poll_step(false, 1, 0), PollDecision::TimedOut);
}

#[test]
fn satisfied_wins_even_after_the_deadline() {
    assert_eq!(poll_step(true, 0, 500), PollDecision::Satisfied);
    assert_eq!(poll_step(true, 10_000, 500), PollDecision::Satisfied);
    assert_eq!(poll_step(true, u64::MAX, 0), PollDecision::Satisfied);
}
