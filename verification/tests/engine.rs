use videoconverter::engine::{run_trace, Engine, Event};
use videoconverter::{batch_exit_code, Job, JobStatus, RunOutcome};

fn job(label: &str, expected_duration_us: u64) -> Job {
    Job {
        program: String::from("encoder"),
        args: vec![String::from("-i"), String::from(label)],
        expected_duration_us,
        label: String::from(label),
    }
}

#[test]
fn serial_run_all_succeed() {
    // budget 1, three jobs each exiting 0: completed with three successes,
    // processed one at a time, the overall indicator reaching 3/3
    let jobs = vec![job("a.mkv", 1_000), job("b.mkv", 1_000), job("c.mkv", 1_000)];
    let events = vec![
        Event::StreamClosed { job: 0 },
        Event::Exited { job: 0, code: 0 },
        Event::StreamClosed { job: 1 },
        Event::Exited { job: 1, code: 0 },
        Event::StreamClosed { job: 2 },
        Event::Exited { job: 2, code: 0 },
    ];
    let (engine, outcome) = run_trace(jobs, 1, events);
    match outcome {
        Some(RunOutcome::Completed(v)) => {
            assert_eq!(
                v,
                vec![
                    JobStatus::Success(0),
                    JobStatus::Success(0),
                    JobStatus::Success(0)
                ]
            );
            assert_eq!(batch_exit_code(&RunOutcome::Completed(v)), 0);
        }
        _ => panic!("expected a completed outcome"),
    }
    assert_eq!(engine.max_concurrent(), 1);
    assert_eq!(engine.kills_performed(), 0);
    assert!(engine.display_state().overall_is_shown());
    assert_eq!(engine.display_state().overall_progress(), (3, 3));
}

#[test]
fn parallel_run_one_failure() {
    // budget 2; job B exits 1: the batch still completes, B is reported as
    // a failure, and the hosting process exit code is non-zero
    let jobs = vec![job("a.mkv", 1_000), job("b.mkv", 1_000), job("c.mkv", 1_000)];
    let events = vec![
        Event::StreamClosed { job: 0 },
        Event::Exited { job: 0, code: 0 },
        Event::StreamClosed { job: 1 },
        Event::Exited { job: 1, code: 1 },
        Event::StreamClosed { job: 2 },
        Event::Exited { job: 2, code: 0 },
    ];
    let (engine, outcome) = run_trace(jobs, 2, events);
    match outcome {
        Some(RunOutcome::Completed(v)) => {
            assert_eq!(
                v,
                vec![
                    JobStatus::Success(0),
                    JobStatus::Failure(1),
                    JobStatus::Success(0)
                ]
            );
            assert_ne!(batch_exit_code(&RunOutcome::Completed(v)), 0);
        }
        _ => panic!("expected a completed outcome"),
    }
    assert!(engine.max_concurrent() <= 2);
    assert_eq!(engine.kills_performed(), 0);
}

#[test]
fn mid_run_cancellation() {
    // budget 2, five long-running jobs; the interrupt fires after two
    // workers started and before a third acquires a permit: exactly two
    // kill sequences, no job beyond the first two ever spawned, and the
    // outcome is cancelled
    let jobs = vec![
        job("a.mkv", 60_000_000),
        job("b.mkv", 60_000_000),
        job("c.mkv", 60_000_000),
        job("d.mkv", 60_000_000),
        job("e.mkv", 60_000_000),
    ];
    let events = vec![
        Event::Line {
            job: 0,
            line: String::from("out_time_us=1000000"),
        },
        Event::Interrupt,
    ];
    let (engine, outcome) = run_trace(jobs, 2, events);
    assert!(matches!(outcome, Some(RunOutcome::Cancelled)));
    assert_eq!(engine.kills_performed(), 2);
    assert_eq!(engine.pool_state().started_jobs(), 2);
    assert_eq!(engine.pool_state().permits_acquired(), 2);
    assert_eq!(engine.pool_state().permits_released(), 2);
    assert_eq!(engine.max_concurrent(), 2);
    assert_eq!(batch_exit_code(&RunOutcome::Cancelled), 1);
}

#[test]
fn progress_update_reaches_the_display() {
    // a job expected to take 10 seconds reports five seconds of progress,
    // then the end marker: the entry shows the position before it is removed
    let jobs = vec![job("show.mkv", 10_000_000)];
    let mut engine = Engine::new(jobs, 1);
    let started = engine.start_ready();
    assert_eq!(started, vec![0]);
    engine.handle_line(0, "out_time_us=5000000");
    assert_eq!(engine.display_state().position_of(0), Some(5_000_000));
    engine.handle_line(0, "progress=end");
    engine.handle_exited(0, 0);
    assert_eq!(engine.display_state().position_of(0), None);
    assert!(engine.is_done());
    assert!(matches!(engine.outcome(), RunOutcome::Completed(_)));
}

#[test]
fn empty_batch_completes_at_once() {
    let (engine, outcome) = run_trace(Vec::new(), 1, Vec::new());
    match outcome {
        Some(RunOutcome::Completed(v)) => assert!(v.is_empty()),
        _ => panic!("an empty batch completes"),
    }
    assert_eq!(engine.max_concurrent(), 0);
    assert_eq!(engine.kills_performed(), 0);
}

#[test]
fn position_may_pass_the_expected_duration() {
    // the expected duration only scales the bar; a longer encode keeps
    // reporting and is not an error
    let jobs = vec![job("short.mkv", 1_000)];
    let mut engine = Engine::new(jobs, 1);
    let _ = engine.start_ready();
    engine.handle_line(0, "out_time_us=2000");
    assert_eq!(engine.display_state().position_of(0), Some(2_000));
    engine.handle_line(0, "progress=end");
    engine.handle_exited(0, 0);
    assert!(engine.is_done());
}

#[test]
fn interrupt_is_single_fire() {
    let jobs = vec![job("a.mkv", 1_000), job("b.mkv", 1_000)];
    let mut engine = Engine::new(jobs, 2);
    let _ = engine.start_ready();
    let killed = engine.handle_interrupt();
    assert_eq!(killed, vec![0, 1]);
    // a second interrupt finds nothing to do
    let killed_again = engine.handle_interrupt();
    assert!(killed_again.is_empty());
    assert_eq!(engine.kills_performed(), 2);
    assert!(engine.is_done());
    assert!(matches!(engine.outcome(), RunOutcome::Cancelled));
}

#[test]
fn cancellation_starts_no_further_jobs() {
    let jobs = vec![job("a.mkv", 1_000), job("b.mkv", 1_000), job("c.mkv", 1_000)];
    let mut engine = Engine::new(jobs, 1);
    let first = engine.start_ready();
    assert_eq!(first, vec![0]);
    let _ = engine.handle_interrupt();
    // the freed permit does not let another job start
    let after = engine.start_ready();
    assert!(after.is_empty());
    assert_eq!(engine.pool_state().started_jobs(), 1);
}

#[test]
fn late_events_for_finished_jobs_are_harmless() {
    let jobs = vec![job("a.mkv", 1_000)];
    let mut engine = Engine::new(jobs, 1);
    let _ = engine.start_ready();
    engine.handle_stream_closed(0);
    engine.handle_exited(0, 0);
    // the process is gone; stray events must change nothing
    engine.handle_line(0, "out_time_us=7");
    engine.handle_stream_closed(0);
    engine.handle_exited(0, 5);
    engine.handle_line(7, "out_time_us=7");
    assert!(engine.is_done());
    match engine.outcome() {
        RunOutcome::Completed(v) => assert_eq!(v, vec![JobStatus::Success(0)]),
        RunOutcome::Cancelled => panic!("run was not cancelled"),
    }
}
