use videoconverter::pool::{compute_budget, configured_budget, Pool};
use videoconverter::{JobStatus, RunOutcome};

#[test]
fn budget_is_never_exceeded() {
    let mut p = Pool::new(5, 2);
    assert!(p.can_start());
    let a = p.start_next();
    let b = p.start_next();
    assert_eq!((a, b), (0, 1));
    assert_eq!(p.active_permits(), 2);
    // the budget is full: no third job may start
    assert!(!p.can_start());
    p.finish(a, 0);
    assert_eq!(p.active_permits(), 1);
    assert!(p.can_start());
}

#[test]
fn permits_are_conserved_on_every_path() {
    let mut p = Pool::new(3, 2);
    let a = p.start_next();
    let b = p.start_next();
    p.finish(a, 0);
    let c = p.start_next();
    p.cancel_fire();
    p.finish_cancelled(b);
    p.finish_cancelled(c);
    assert_eq!(p.permits_acquired(), 3);
    assert_eq!(p.permits_released(), 3);
    assert_eq!(p.active_permits(), 0);
    assert!(p.is_terminal());
}

#[test]
fn cancellation_blocks_further_starts() {
    let mut p = Pool::new(4, 2);
    let _ = p.start_next();
    assert!(p.can_start());
    p.cancel_fire();
    assert!(!p.can_start());
}

#[test]
fn completed_outcome_reports_each_status() {
    let mut p = Pool::new(2, 1);
    let a = p.start_next();
    p.finish(a, 0);
    let b = p.start_next();
    p.finish(b, 3);
    assert!(p.is_terminal());
    match p.outcome() {
        RunOutcome::Completed(v) => {
            assert_eq!(v, vec![JobStatus::Success(0), JobStatus::Failure(3)]);
        }
        RunOutcome::Cancelled => panic!("run was not cancelled"),
    }
}

#[test]
fn cancelled_outcome_supersedes_successes() {
    let mut p = Pool::new(2, 2);
    let a = p.start_next();
    let b = p.start_next();
    p.finish(a, 0);
    p.cancel_fire();
    // outcome is only read once no worker is in flight
    p.finish_cancelled(b);
    assert!(p.is_terminal());
    assert!(matches!(p.outcome(), RunOutcome::Cancelled));
}

#[test]
fn budget_from_configuration() {
    // absent configuration: fully serial
    assert_eq!(compute_budget(&None, 8), 1);
    // bare flag: one process per available CPU
    assert_eq!(compute_budget(&Some(None), 8), 8);
    // explicit count, capped at the available CPUs
    assert_eq!(compute_budget(&Some(Some(3)), 8), 3);
    assert_eq!(compute_budget(&Some(Some(64)), 8), 8);
    assert_eq!(compute_budget(&Some(Some(8)), 8), 8);
}

#[test]
fn machine_budget_respects_configuration() {
    assert_eq!(configured_budget(&None), 1);
    assert!(configured_budget(&Some(None)) >= 1);
    let b = configured_budget(&Some(Some(2)));
    assert!(1 <= b && b <= 2);
}
