use vstd::prelude::*;

pub mod command;
pub mod directory;
pub mod display;
pub mod engine;
pub mod input;
pub mod interface;
pub mod pool;
pub mod progress;
pub mod text;
pub mod tv;
pub mod worker;

verus! {

/// The terminal status of one job's worker: the process exited cleanly,
/// exited with a non-zero code, or was killed by cancellation.
#[derive(Clone, Copy, Debug, PartialEq, Eq, Structural)]
pub enum JobStatus {
    Success(i32),
    Failure(i32),
    Cancelled,
}

/// The terminal result of a whole batch: cancelled, or completed with each
/// job's exit status in submission order.
pub enum RunOutcome {
    Completed(Vec<JobStatus>),
    Cancelled,
}

/// One prepared unit of work: the external command to run (program and
/// arguments, opaque to the engine), the expected duration used to scale the
/// job's progress indicator, and a display label. Immutable once submitted.
pub struct Job {
    pub program: String,
    pub args: Vec<String>,
    pub expected_duration_us: u64,
    pub label: String,
}

/// The mathematical form of a job.
pub struct JobModel {
    pub program: Seq<char>,
    pub args: Seq<Seq<char>>,
    pub expected_duration_us: u64,
    pub label: Seq<char>,
}

impl View for Job {
    type V = JobModel;

    open spec fn view(&self) -> JobModel {
        JobModel {
            program: self.program@,
            args: self.args@.map_values(|a: String| a@),
            expected_duration_us: self.expected_duration_us,
            label: self.label@,
        }
    }
}

/// What a process exit code means: zero is success, anything else a failure.
pub open spec fn status_spec(code: i32) -> JobStatus {
    if code == 0 {
        JobStatus::Success(code)
    } else {
        JobStatus::Failure(code)
    }
}

/// Classify a process exit code: zero is success, anything else a failure.
pub fn status_of_exit(code: i32) -> (s: JobStatus)
    ensures
        s == status_spec(code),
{
    if code == 0 {
        JobStatus::Success(code)
    } else {
        JobStatus::Failure(code)
    }
}

/// Whether any job of a completed batch failed.
pub open spec fn any_failure(v: Seq<JobStatus>) -> bool {
    exists|i: int| 0 <= i < v.len() && v[i] is Failure
}

/// The process exit code the hosting command line maps a batch outcome to:
/// zero only for a completed batch with no failed job.
#[verifier::loop_isolation(false)]
pub fn batch_exit_code(outcome: &RunOutcome) -> (c: i32)
    ensures
        outcome is Cancelled ==> c == 1,
        outcome matches RunOutcome::Completed(v) ==> c == (if any_failure(v@) {
            1int
        } else {
            0int
        }),
{
    match outcome {
        RunOutcome::Cancelled => 1,
        RunOutcome::Completed(v) => {
            let mut i: usize = 0;
            while i < v.len()
                invariant
                    i <= v@.len(),
                    forall|j: int| 0 <= j < i ==> !(v@[j] is Failure),
                decreases v@.len() - i,
            {
                let failed = match v[i] {
                    JobStatus::Failure(_) => true,
                    _ => false,
                };
                if failed {
                    proof {
                        assert(v@[i as int] is Failure);
                        assert(any_failure(v@));
                    }
                    return 1;
                }
                i += 1;
            }
            0
        },
    }
}

} // verus!
