//! Concrete instances of the latch's transitions and laws.

use wait_for_me::{wait_for_outcome, CountDownState, TimedWaitOutcome};

#[test]
fn zero_count_is_released_at_once() {
    let mut latch = CountDownState::new(0);
    assert_eq!(0, latch.count());
    assert!(latch.poll_wait(1u32));
    assert!(latch.count_down().is_empty());
    assert_eq!(0, latch.count());
}

#[test]
fn count_down_decrements_by_one() {
    let mut latch: CountDownState<u32> = CountDownState::new(5);
    latch.count_down();
    assert_eq!(4, latch.count());
    latch.count_down();
    assert_eq!(3, latch.count());
}

#[test]
fn count_down_saturates_at_zero() {
    let mut latch: CountDownState<u32> = CountDownState::new(1);
    latch.count_down();
    latch.count_down();
    latch.count_down();
    assert_eq!(0, latch.count());
}

#[test]
fn released_after_exactly_count_count_downs() {
    let mut latch = CountDownState::new(3);
    latch.count_down();
    latch.count_down();
    assert!(!latch.poll_wait(10u32));
    latch.count_down();
    assert!(latch.poll_wait(11u32));
}

#[test]
fn waiters_are_woken_once_newest_first() {
    let mut latch = CountDownState::new(2);
    assert!(!latch.poll_wait(1u32));
    assert!(!latch.poll_wait(2u32));
    assert!(latch.count_down().is_empty());
    assert!(!latch.poll_wait(3u32));
    assert_eq!(vec![3, 2, 1], latch.count_down());
    // nobody is woken twice
    assert!(latch.count_down().is_empty());
}

#[test]
fn polling_does_not_change_the_count() {
    let mut latch = CountDownState::new(4);
    latch.poll_wait(1u32);
    latch.poll_wait(2u32);
    assert_eq!(4, latch.count());
}

#[test]
fn release_is_final() {
    let mut latch = CountDownState::new(1);
    assert_eq!(vec![7u32], {
        latch.poll_wait(7);
        latch.count_down()
    });
    for id in 0..5 {
        assert!(latch.poll_wait(id));
        assert!(latch.count_down().is_empty());
        assert_eq!(0, latch.count());
    }
}

#[test]
fn timed_wait_answers() {
    assert_eq!(false, wait_for_outcome(TimedWaitOutcome::TimedOut));
    assert_eq!(true, wait_for_outcome(TimedWaitOutcome::Released));
}
