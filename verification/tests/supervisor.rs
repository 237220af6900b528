use lan_discovery::supervisor::{first_failure_index, TaskOutcome};

#[test]
fn no_outcomes_no_failure() {
    assert_eq!(first_failure_index(&Vec::new()), None);
}

#[test]
fn all_success_keeps_waiting() {
    let outcomes = vec![TaskOutcome::Success; 4];
    assert_eq!(first_failure_index(&outcomes), None);
}

#[test]
fn a_failure_is_found_at_once() {
    let outcomes = vec![TaskOutcome::Failure];
    assert_eq!(first_failure_index(&outcomes), Some(0));
}

#[test]
fn the_first_failure_wins() {
    let outcomes = vec![
        TaskOutcome::Success,
        TaskOutcome::Success,
        TaskOutcome::Failure,
        TaskOutcome::Success,
        TaskOutcome::Failure,
    ];
    assert_eq!(first_failure_index(&outcomes), Some(2));
}
