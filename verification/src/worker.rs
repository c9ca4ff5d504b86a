use vstd::prelude::*;

verus! {

use crate::JobStatus;
use crate::status_spec;
use crate::progress::ProgressUpdate;
use crate::progress::parse_line_spec;
use crate::progress::parse_progress_line;

/// Where one worker stands: pumping its process's progress stream, waiting
/// for the process to exit after the stream ended, or finished with a
/// terminal status.
#[derive(Clone, Copy, Debug, PartialEq, Eq, Structural)]
pub enum WorkerPhase {
    Streaming,
    AwaitingExit,
    Done(JobStatus),
}

/// One thing that can happen to a running worker: a line of process output
/// arrives, the output stream closes, the process exits, or the cancellation
/// signal fires.
pub enum WorkerEvent {
    Line(String),
    StreamClosed,
    Exited(i32),
    Cancel,
}

/// The mathematical form of a worker event.
pub enum WorkerEventModel {
    Line(Seq<char>),
    StreamClosed,
    Exited(i32),
    Cancel,
}

impl View for WorkerEvent {
    type V = WorkerEventModel;

    open spec fn view(&self) -> WorkerEventModel {
        match self {
            WorkerEvent::Line(l) => WorkerEventModel::Line(l@),
            WorkerEvent::StreamClosed => WorkerEventModel::StreamClosed,
            WorkerEvent::Exited(code) => WorkerEventModel::Exited(*code),
            WorkerEvent::Cancel => WorkerEventModel::Cancel,
        }
    }
}

/// What the worker asks its surroundings to do after a step: nothing, move
/// the job's progress indicator, or kill the child process and wait for it
/// so that no zombie is left behind.
#[derive(Clone, Copy, Debug, PartialEq, Eq, Structural)]
pub enum WorkerAction {
    Nothing,
    UpdateProgress(u64),
    KillAndReap,
}

/// How one worker advances on one event. Cancellation ends the worker at
/// once, from any live phase, with a kill of its process. Progress lines
/// only ever move the indicator or end the streaming phase; no line is
/// fatal. A worker that is already done never changes again.
pub open spec fn worker_step_spec(phase: WorkerPhase, event: WorkerEventModel) -> (WorkerPhase,
    WorkerAction) {
    match phase {
        WorkerPhase::Done(_) => (phase, WorkerAction::Nothing),
        _ => match event {
            WorkerEventModel::Cancel => (
                WorkerPhase::Done(JobStatus::Cancelled),
                WorkerAction::KillAndReap,
            ),
            WorkerEventModel::Exited(code) => (
                WorkerPhase::Done(status_spec(code)),
                WorkerAction::Nothing,
            ),
            WorkerEventModel::StreamClosed => (WorkerPhase::AwaitingExit, WorkerAction::Nothing),
            WorkerEventModel::Line(l) => match phase {
                WorkerPhase::Streaming => match parse_line_spec(l) {
                    ProgressUpdate::End => (WorkerPhase::AwaitingExit, WorkerAction::Nothing),
                    ProgressUpdate::Position(us) => (
                        WorkerPhase::Streaming,
                        WorkerAction::UpdateProgress(us),
                    ),
                    ProgressUpdate::Ignore => (WorkerPhase::Streaming, WorkerAction::Nothing),
                },
                _ => (phase, WorkerAction::Nothing),
            },
        },
    }
}

/// Advance one worker by one event.
pub fn worker_step(phase: WorkerPhase, event: &WorkerEvent) -> (r: (WorkerPhase, WorkerAction))
    ensures
        r == worker_step_spec(phase, event@),
{
    match phase {
        WorkerPhase::Done(_) => (phase, WorkerAction::Nothing),
        _ => match event {
            WorkerEvent::Cancel => (WorkerPhase::Done(JobStatus::Cancelled), WorkerAction::KillAndReap),
            WorkerEvent::Exited(code) => (
                WorkerPhase::Done(crate::status_of_exit(*code)),
                WorkerAction::Nothing,
            ),
            WorkerEvent::StreamClosed => (WorkerPhase::AwaitingExit, WorkerAction::Nothing),
            WorkerEvent::Line(l) => match phase {
                WorkerPhase::Streaming => match parse_progress_line(l.as_str()) {
                    ProgressUpdate::End => (WorkerPhase::AwaitingExit, WorkerAction::Nothing),
                    ProgressUpdate::Position(us) => (
                        WorkerPhase::Streaming,
                        WorkerAction::UpdateProgress(us),
                    ),
                    ProgressUpdate::Ignore => (WorkerPhase::Streaming, WorkerAction::Nothing),
                },
                _ => (phase, WorkerAction::Nothing),
            },
        },
    }
}

/// Law: cancellation is complete at the worker. A worker that has not yet
/// finished terminates with status `Cancelled` in a single step once the
/// cancellation signal reaches it, and the step kills its child process.
pub proof fn lemma_cancel_terminates_worker(phase: WorkerPhase)
    requires
        !(phase is Done),
    ensures
        worker_step_spec(phase, WorkerEventModel::Cancel) == (
            WorkerPhase::Done(JobStatus::Cancelled),
            WorkerAction::KillAndReap,
        ),
{
}

/// Law: a finished worker observes nothing further - its terminal status
/// never changes, whatever events still arrive.
pub proof fn lemma_done_is_final(status: JobStatus, event: WorkerEventModel)
    ensures
        worker_step_spec(WorkerPhase::Done(status), event) == (
            WorkerPhase::Done(status),
            WorkerAction::Nothing,
        ),
{
}

} // verus!
