use pidone::reaper::{drain_reaps, reap_all};
use pidone::sys::WaitOutcome;

#[test]
fn drain_collects_each_termination_exactly_once() {
    let outcomes = vec![
        WaitOutcome::Exited(3, 0),
        WaitOutcome::Signaled(4),
        WaitOutcome::Exited(8, 7),
        WaitOutcome::StillAlive,
        WaitOutcome::Exited(9, 1),
    ];
    let reaped = drain_reaps(&outcomes);
    assert_eq!(reaped, vec![3, 4, 8]);
}

#[test]
fn drain_skips_non_terminating_state_changes() {
    let outcomes = vec![
        WaitOutcome::OtherChange(2),
        WaitOutcome::Exited(3, 0),
        WaitOutcome::OtherChange(3),
        WaitOutcome::Signaled(5),
        WaitOutcome::NoChildren,
    ];
    let reaped = drain_reaps(&outcomes);
    assert_eq!(reaped, vec![3, 5]);
}

#[test]
fn drain_stops_on_wait_error() {
    let outcomes = vec![
        WaitOutcome::Exited(2, 0),
        WaitOutcome::WaitError,
        WaitOutcome::Exited(3, 0),
    ];
    let reaped = drain_reaps(&outcomes);
    assert_eq!(reaped, vec![2]);
}

#[test]
fn drain_of_empty_stream_is_empty() {
    let outcomes: Vec<WaitOutcome> = Vec::new();
    let reaped = drain_reaps(&outcomes);
    assert!(reaped.is_empty());
}

#[test]
fn drain_with_nothing_waitable_is_empty() {
    let outcomes = vec![WaitOutcome::StillAlive];
    let reaped = drain_reaps(&outcomes);
    assert!(reaped.is_empty());
}

#[test]
fn drain_collects_whole_stream_of_terminations() {
    let outcomes = vec![
        WaitOutcome::Exited(10, 0),
        WaitOutcome::Exited(11, 1),
        WaitOutcome::Signaled(12),
    ];
    let reaped = drain_reaps(&outcomes);
    assert_eq!(reaped, vec![10, 11, 12]);
}

#[test]
fn drain_counts_each_report_separately_even_for_a_reused_pid() {
    let outcomes = vec![
        WaitOutcome::Exited(5, 0),
        WaitOutcome::Exited(5, 0),
        WaitOutcome::NoChildren,
    ];
    let reaped = drain_reaps(&outcomes);
    assert_eq!(reaped, vec![5, 5]);
}

#[test]
fn reap_all_without_children_reports_nothing_and_is_idempotent() {
    let first = reap_all();
    assert_eq!(first.outcomes, vec![WaitOutcome::NoChildren]);
    assert_eq!(first.reaped, 0);
    assert!(!first.wait_error);
    let second = reap_all();
    assert_eq!(second.reaped, 0);
    assert!(!second.wait_error);
}

#[test]
fn reap_all_count_agrees_with_the_drain_model_on_its_log() {
    let report = reap_all();
    let modeled = drain_reaps(&report.outcomes);
    assert_eq!(report.reaped as usize, modeled.len());
}
