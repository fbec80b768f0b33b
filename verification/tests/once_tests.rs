use skirt::once::Once;

#[test]
fn new_barrier_is_not_completed() {
    let once = Once::new();
    assert!(!once.is_completed());
}

#[test]
fn call_once_runs_the_action_and_completes() {
    let mut once = Once::new();
    let mut ran: u32 = 0;
    once.call_once(|| ran += 1);
    assert_eq!(ran, 1);
    assert!(once.is_completed());
}

#[test]
fn action_runs_exactly_once_across_calls() {
    let mut once = Once::new();
    let mut count: u32 = 0;
    once.call_once(|| count += 1);
    once.call_once(|| count += 10);
    once.call_once(|| count += 100);
    assert_eq!(count, 1);
    assert!(once.is_completed());
}

#[test]
fn is_completed_is_monotonic() {
    let mut once = Once::new();
    assert!(!once.is_completed());
    once.call_once(|| ());
    assert!(once.is_completed());
    once.call_once(|| ());
    assert!(once.is_completed());
    assert!(once.is_completed());
}

#[test]
fn default_barrier_is_fresh() {
    let once = Once::default();
    assert!(!once.is_completed());
}
