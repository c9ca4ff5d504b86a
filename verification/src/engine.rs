use vstd::prelude::*;

verus! {

use crate::Job;
use crate::JobModel;
use crate::JobStatus;
use crate::RunOutcome;
use crate::status_spec;
use crate::display::DisplayModel;
use crate::display::EntryModel;
use crate::display::ProgressDisplay;
use crate::display::register_model;
use crate::display::remove_model;
use crate::display::tick_model;
use crate::display::update_model;
use crate::pool::Pool;
use crate::pool::PoolModel;
use crate::pool::can_start_spec;
use crate::pool::is_terminal_spec;
use crate::pool::lemma_running_count_all_some;
use crate::pool::wf;
use crate::worker::WorkerAction;
use crate::worker::WorkerEvent;
use crate::worker::WorkerEventModel;
use crate::worker::WorkerPhase;
use crate::worker::worker_step;
use crate::worker::worker_step_spec;

/// One thing the engine can observe while a batch runs: a line of a running
/// job's progress stream, that stream closing, a job's process exiting, or
/// the interrupt that cancels the whole run.
pub enum Event {
    Line { job: usize, line: String },
    StreamClosed { job: usize },
    Exited { job: usize, code: i32 },
    Interrupt,
}

/// The mathematical form of an engine event.
pub enum EventModel {
    Line { job: int, line: Seq<char> },
    StreamClosed { job: int },
    Exited { job: int, code: i32 },
    Interrupt,
}

impl View for Event {
    type V = EventModel;

    open spec fn view(&self) -> EventModel {
        match self {
            Event::Line { job, line } => EventModel::Line { job: *job as int, line: line@ },
            Event::StreamClosed { job } => EventModel::StreamClosed { job: *job as int },
            Event::Exited { job, code } => EventModel::Exited { job: *job as int, code: *code },
            Event::Interrupt => EventModel::Interrupt,
        }
    }
}

/// The mathematical state of a whole run: the submitted jobs, the pool
/// controller, the shared display, each started worker's phase, and two run
/// counters - how many kill sequences cancellation performed and the largest
/// number of processes ever in flight at once.
#[verifier::ext_equal]
pub struct EngineModel {
    pub jobs: Seq<JobModel>,
    pub pool: PoolModel,
    pub display: DisplayModel,
    pub phases: Seq<WorkerPhase>,
    pub kills: int,
    pub max_active: int,
}

/// A worker's phase agrees with the status table: a finished worker's status
/// is recorded, a live worker's is still open.
pub open spec fn phase_status_ok(p: WorkerPhase, s: Option<JobStatus>) -> bool {
    match p {
        WorkerPhase::Done(st) => s == Some(st),
        _ => s is None,
    }
}

/// A started job's display slot agrees with its status: a live job shows an
/// indicator scaled to its expected duration, a finished job's indicator has
/// been cleared.
pub open spec fn entry_ok(e: Option<EntryModel>, s: Option<JobStatus>, j: JobModel) -> bool {
    match e {
        Some(em) => s is None && em.label == j.label && em.total_us == j.expected_duration_us,
        None => s is Some,
    }
}

/// Well-formedness of a run: the pool is well-formed, one display slot and
/// one phase exist per started job, unstarted jobs are untouched, and the
/// run counters are in range.
pub open spec fn wf_engine(m: EngineModel) -> bool {
    &&& wf(m.pool)
    &&& m.pool.total == m.jobs.len()
    &&& m.phases.len() == m.jobs.len()
    &&& m.display.entries.len() == m.pool.started
    &&& m.display.overall_total == m.pool.total
    &&& forall|i: int| m.pool.started <= i < m.phases.len() ==> m.phases[i] is Streaming
    &&& forall|i: int|
        0 <= i < m.pool.started ==> phase_status_ok(m.phases[i], m.pool.statuses[i])
    &&& forall|i: int|
        0 <= i < m.pool.started ==> entry_ok(m.display.entries[i], m.pool.statuses[i], m.jobs[i])
    &&& 0 <= m.kills <= m.pool.released
    &&& 0 <= m.max_active <= m.pool.budget
}

/// A fresh run: nothing started, nothing cancelled, the aggregate indicator
/// shown unless every job will be visible at once.
pub open spec fn engine_new_model(jobs: Seq<JobModel>, budget: int) -> EngineModel {
    EngineModel {
        jobs,
        pool: PoolModel {
            budget,
            total: jobs.len() as int,
            started: 0,
            active: 0,
            acquired: 0,
            released: 0,
            cancelled: false,
            statuses: Seq::new(jobs.len(), |i: int| None),
        },
        display: DisplayModel {
            entries: Seq::empty(),
            overall_done: 0,
            overall_total: jobs.len() as int,
            overall_shown: jobs.len() != budget,
        },
        phases: Seq::new(jobs.len(), |i: int| WorkerPhase::Streaming),
        kills: 0,
        max_active: 0,
    }
}

/// Starting the next job in submission order: one permit out, its indicator
/// registered at position zero, the high-water mark maintained.
pub open spec fn start_one_model(m: EngineModel) -> EngineModel {
    EngineModel {
        pool: PoolModel {
            started: m.pool.started + 1,
            active: m.pool.active + 1,
            acquired: m.pool.acquired + 1,
            ..m.pool
        },
        display: register_model(
            m.display,
            m.jobs[m.pool.started].label,
            m.jobs[m.pool.started].expected_duration_us,
        ),
        max_active: if m.pool.active + 1 > m.max_active {
            m.pool.active + 1
        } else {
            m.max_active
        },
        ..m
    }
}

/// Starting every job the budget currently allows, in submission order.
pub open spec fn start_ready_model(m: EngineModel) -> EngineModel
    decreases m.pool.total - m.pool.started,
{
    if can_start_spec(m.pool) {
        start_ready_model(start_one_model(m))
    } else {
        m
    }
}

/// What a worker action does to the display.
pub open spec fn apply_action_model(d: DisplayModel, h: int, a: WorkerAction) -> DisplayModel {
    match a {
        WorkerAction::UpdateProgress(us) => update_model(d, h, us),
        _ => d,
    }
}

/// A progress line for a streaming worker steps that worker; for anything
/// else the line changes nothing.
pub open spec fn line_model(m: EngineModel, job: int, line: Seq<char>) -> EngineModel {
    if 0 <= job < m.pool.started && m.phases[job] is Streaming {
        let sa = worker_step_spec(WorkerPhase::Streaming, WorkerEventModel::Line(line));
        EngineModel {
            phases: m.phases.update(job, sa.0),
            display: apply_action_model(m.display, job, sa.1),
            ..m
        }
    } else {
        m
    }
}

/// A closing progress stream moves a streaming worker to waiting for its
/// process to exit.
pub open spec fn stream_closed_model(m: EngineModel, job: int) -> EngineModel {
    if 0 <= job < m.pool.started && m.phases[job] is Streaming {
        EngineModel { phases: m.phases.update(job, WorkerPhase::AwaitingExit), ..m }
    } else {
        m
    }
}

/// A process exit for a waiting worker: its status is recorded, its permit
/// released, its indicator cleared, and the aggregate counter ticked.
pub open spec fn exited_model(m: EngineModel, job: int, code: i32) -> EngineModel {
    if 0 <= job < m.pool.started && m.phases[job] is AwaitingExit {
        EngineModel {
            pool: PoolModel {
                active: m.pool.active - 1,
                released: m.pool.released + 1,
                statuses: m.pool.statuses.update(job, Some(status_spec(code))),
                ..m.pool
            },
            display: tick_model(remove_model(m.display, job)),
            phases: m.phases.update(job, WorkerPhase::Done(status_spec(code))),
            ..m
        }
    } else {
        m
    }
}

/// The statuses after cancellation reaches every running worker.
pub open spec fn cancel_statuses(s: Seq<Option<JobStatus>>, upto: int) -> Seq<
    Option<JobStatus>,
> {
    Seq::new(
        s.len(),
        |i: int|
            if i < upto && s[i] is None {
                Some(JobStatus::Cancelled)
            } else {
                s[i]
            },
    )
}

/// The phases after cancellation reaches every running worker.
pub open spec fn cancel_phases(p: Seq<WorkerPhase>, upto: int) -> Seq<WorkerPhase> {
    Seq::new(
        p.len(),
        |i: int|
            if 0 <= i < upto && !(p[i] is Done) {
                WorkerPhase::Done(JobStatus::Cancelled)
            } else {
                p[i]
            },
    )
}

/// The interrupt: fired at most once. Every running worker is killed and
/// recorded as cancelled, every permit comes back, every indicator is
/// cleared, and no further job will ever start.
pub open spec fn interrupt_model(m: EngineModel) -> EngineModel {
    if m.pool.cancelled {
        m
    } else {
        EngineModel {
            pool: PoolModel {
                cancelled: true,
                active: 0,
                released: m.pool.started,
                statuses: cancel_statuses(m.pool.statuses, m.pool.started),
                ..m.pool
            },
            display: DisplayModel {
                entries: Seq::new(m.display.entries.len(), |i: int| None),
                ..m.display
            },
            phases: cancel_phases(m.phases, m.pool.started),
            kills: m.kills + m.pool.active,
            ..m
        }
    }
}

/// The concurrent execution engine: drives a batch of jobs under a
/// concurrency budget, tracks each worker's progress on the shared display,
/// and supports single-fire, all-or-nothing cancellation. The surrounding
/// process runner performs the I/O - spawning, reading output lines, killing
/// - and reports what happened as events.
pub struct Engine {
    jobs: Vec<Job>,
    pool: Pool,
    display: ProgressDisplay,
    phases: Vec<WorkerPhase>,
    kills: usize,
    max_active: usize,
}

impl View for Engine {
    type V = EngineModel;

    closed spec fn view(&self) -> EngineModel {
        EngineModel {
            jobs: self.jobs@.map_values(|j: Job| j@),
            pool: self.pool@,
            display: self.display@,
            phases: self.phases@,
            kills: self.kills as int,
            max_active: self.max_active as int,
        }
    }
}

impl Engine {
    /// A new engine for this job list under this positive budget. No job is
    /// started yet; `start_ready` starts the first wave.
    pub fn new(jobs: Vec<Job>, budget: usize) -> (e: Engine)
        requires
            budget >= 1,
        ensures
            wf_engine(e@),
            e@ == engine_new_model(jobs@.map_values(|j: Job| j@), budget as int),
    {
        let total = jobs.len();
        let pool = Pool::new(total, budget);
        let display = ProgressDisplay::new(total, budget);
        let mut phases: Vec<WorkerPhase> = Vec::new();
        let mut i: usize = 0;
        while i < total
            invariant
                i <= total,
                phases@ =~= Seq::new(i as nat, |j: int| WorkerPhase::Streaming),
            decreases total - i,
        {
            phases.push(WorkerPhase::Streaming);
            i += 1;
        }
        let e = Engine { jobs, pool, display, phases, kills: 0, max_active: 0 };
        proof {
            let m = engine_new_model(e.jobs@.map_values(|j: Job| j@), budget as int);
            assert(e@.phases =~= m.phases);
            assert(e@.display =~= m.display);
            assert(e@.pool =~= m.pool);
            assert(e@ =~= m);
        }
        e
    }

    /// Start jobs, in submission order, until the budget is full, every job
    /// has started, or cancellation has fired. Returns the indices of the
    /// jobs started now, in order; the caller spawns one process for each.
    pub fn start_ready(&mut self) -> (started_now: Vec<usize>)
        requires
            wf_engine(old(self)@),
        ensures
            wf_engine(final(self)@),
            final(self)@ == start_ready_model(old(self)@),
            started_now@.len() == final(self)@.pool.started - old(self)@.pool.started,
            forall|k: int|
                0 <= k < started_now@.len() ==> started_now@[k] == old(self)@.pool.started + k,
    {
        let mut started_now: Vec<usize> = Vec::new();
        while self.pool.can_start()
            invariant
                wf_engine(self@),
                start_ready_model(self@) == start_ready_model(old(self)@),
                old(self)@.pool.started <= self@.pool.started,
                started_now@.len() == self@.pool.started - old(self)@.pool.started,
                forall|k: int|
                    0 <= k < started_now@.len() ==> started_now@[k] == old(self)@.pool.started
                        + k,
            decreases self@.pool.total - self@.pool.started,
        {
            let ghost prev = self@;
            let j = self.pool.start_next();
            let label = self.jobs[j].label.clone();
            let total_us = self.jobs[j].expected_duration_us;
            let h = self.display.register(label, total_us);
            let a = self.pool.active_permits();
            if a > self.max_active {
                self.max_active = a;
            }
            started_now.push(j);
            proof {
                assert(self@.display =~= start_one_model(prev).display);
                assert(self@ =~= start_one_model(prev));
            }
        }
        started_now
    }

    /// Feed one line of a running job's progress stream to its worker. A
    /// line for a job that is not streaming - or that no parser rule
    /// recognizes - changes nothing and is never an error.
    pub fn handle_line(&mut self, job: usize, line: &str)
        requires
            wf_engine(old(self)@),
        ensures
            wf_engine(final(self)@),
            final(self)@ == line_model(old(self)@, job as int, line@),
    {
        if job < self.pool.started_jobs() {
            let streaming = match self.phases[job] {
                WorkerPhase::Streaming => true,
                _ => false,
            };
            if streaming {
                let event = WorkerEvent::Line(String::from_str(line));
                let (phase, action) = worker_step(WorkerPhase::Streaming, &event);
                self.phases[job] = phase;
                match action {
                    WorkerAction::UpdateProgress(us) => {
                        self.display.update(job, us);
                    },
                    _ => {},
                }
                proof {
                    assert(final(self)@.phases =~= line_model(
                        old(self)@,
                        job as int,
                        line@,
                    ).phases);
                    assert(final(self)@ =~= line_model(old(self)@, job as int, line@));
                }
            }
        }
    }

    /// A running job's progress stream closed: its worker now only waits for
    /// the process to exit.
    pub fn handle_stream_closed(&mut self, job: usize)
        requires
            wf_engine(old(self)@),
        ensures
            wf_engine(final(self)@),
            final(self)@ == stream_closed_model(old(self)@, job as int),
    {
        if job < self.pool.started_jobs() {
            let streaming = match self.phases[job] {
                WorkerPhase::Streaming => true,
                _ => false,
            };
            if streaming {
                self.phases[job] = WorkerPhase::AwaitingExit;
                proof {
                    assert(final(self)@ =~= stream_closed_model(old(self)@, job as int));
                }
            }
        }
    }

    /// A waiting job's process exited with this code: record its status,
    /// release its permit, clear its indicator and tick the aggregate
    /// counter. The freed permit lets `start_ready` start more work.
    pub fn handle_exited(&mut self, job: usize, code: i32)
        requires
            wf_engine(old(self)@),
        ensures
            wf_engine(final(self)@),
            final(self)@ == exited_model(old(self)@, job as int, code),
    {
        if job < self.pool.started_jobs() {
            let awaiting = match self.phases[job] {
                WorkerPhase::AwaitingExit => true,
                _ => false,
            };
            if awaiting {
                self.pool.finish(job, code);
                self.display.remove(job);
                self.display.tick_overall();
                self.phases[job] = WorkerPhase::Done(crate::status_of_exit(code));
                proof {
                    assert(final(self)@ =~= exited_model(old(self)@, job as int, code));
                }
            }
        }
    }

    /// The interrupt fired: cancel everything. Every running worker is
    /// recorded as cancelled, its permit released and its indicator cleared;
    /// no new job will ever start. Returns the running jobs, in order; the
    /// caller kills each one's process and waits for it. A second interrupt
    /// changes nothing.
    pub fn handle_interrupt(&mut self) -> (to_kill: Vec<usize>)
        requires
            wf_engine(old(self)@),
        ensures
            wf_engine(final(self)@),
            final(self)@ == interrupt_model(old(self)@),
            to_kill@.len() == final(self)@.kills - old(self)@.kills,
            forall|k: int|
                0 <= k < to_kill@.len() ==> 0 <= #[trigger] to_kill@[k] < old(self)@.pool.started
                    && old(self)@.pool.statuses[to_kill@[k] as int] is None,
            forall|k1: int, k2: int|
                0 <= k1 < k2 < to_kill@.len() ==> to_kill@[k1] < to_kill@[k2],
    {
        let mut to_kill: Vec<usize> = Vec::new();
        if self.pool.is_cancelled() {
            return to_kill;
        }
        self.pool.cancel_fire();
        let started = self.pool.started_jobs();
        let mut j: usize = 0;
        while j < started
            invariant
                wf_engine(self@),
                wf_engine(old(self)@),
                !old(self)@.pool.cancelled,
                self@.jobs == old(self)@.jobs,
                self@.pool.cancelled,
                self@.pool.budget == old(self)@.pool.budget,
                self@.pool.total == old(self)@.pool.total,
                self@.pool.acquired == old(self)@.pool.acquired,
                started == self@.pool.started == old(self)@.pool.started,
                j <= started,
                self@.max_active == old(self)@.max_active,
                forall|i: int|
                    0 <= i < started ==> self@.pool.statuses[i] == (cancel_statuses(
                        old(self)@.pool.statuses,
                        j as int,
                    ))[i],
                forall|i: int|
                    0 <= i < self@.phases.len() ==> self@.phases[i] == (cancel_phases(
                        old(self)@.phases,
                        j as int,
                    ))[i],
                forall|i: int|
                    0 <= i < started ==> self@.display.entries[i] == (if i < j {
                        None
                    } else {
                        old(self)@.display.entries[i]
                    }),
                self@.display.overall_done == old(self)@.display.overall_done,
                self@.display.overall_total == old(self)@.display.overall_total,
                self@.display.overall_shown == old(self)@.display.overall_shown,
                self@.kills == old(self)@.kills + (old(self)@.pool.active - self@.pool.active),
                to_kill@.len() == old(self)@.pool.active - self@.pool.active,
                forall|k: int|
                    0 <= k < to_kill@.len() ==> 0 <= #[trigger] to_kill@[k] < j
                        && old(self)@.pool.statuses[to_kill@[k] as int] is None,
                forall|k1: int, k2: int|
                    0 <= k1 < k2 < to_kill@.len() ==> to_kill@[k1] < to_kill@[k2],
            decreases started - j,
        {
            let running = self.pool.is_running(j);
            if running {
                self.pool.finish_cancelled(j);
                self.display.remove(j);
                self.phases[j] = WorkerPhase::Done(JobStatus::Cancelled);
                self.kills = self.kills + 1;
                to_kill.push(j);
            } else {
                proof {
                    assert(self@.pool.statuses[j as int] is Some);
                    assert(entry_ok(
                        self@.display.entries[j as int],
                        self@.pool.statuses[j as int],
                        self@.jobs[j as int],
                    ));
                    assert(self@.display.entries[j as int] is None);
                }
            }
            j += 1;
        }
        proof {
            assert(self@.pool.statuses =~= cancel_statuses(
                old(self)@.pool.statuses,
                started as int,
            ));
            lemma_running_count_all_some(self@.pool.statuses, started as int);
            assert(self@.pool.active == 0);
            assert(self@.pool =~= interrupt_model(old(self)@).pool);
            assert(self@.phases =~= cancel_phases(old(self)@.phases, started as int));
            assert(self@.display.entries =~= Seq::new(
                old(self)@.display.entries.len(),
                |i: int| None::<EntryModel>,
            ));
            assert(self@.display =~= interrupt_model(old(self)@).display);
            assert(self@ =~= interrupt_model(old(self)@));
        }
        to_kill
    }

    /// Whether the run is over: no worker in flight, and either cancellation
    /// fired or every job has been started and finished.
    pub fn is_done(&self) -> (r: bool)
        ensures
            r == is_terminal_spec(self@.pool),
    {
        self.pool.is_terminal()
    }

    /// The terminal result of the batch: `Cancelled` as soon as cancellation
    /// fired, else `Completed` with every job's exit status in submission
    /// order.
    pub fn outcome(&self) -> (r: RunOutcome)
        requires
            wf_engine(self@),
            is_terminal_spec(self@.pool),
        ensures
            self@.pool.cancelled ==> r is Cancelled,
            !self@.pool.cancelled ==> (match r {
                RunOutcome::Completed(v) => {
                    &&& v@.len() == self@.pool.total
                    &&& forall|i: int|
                        0 <= i < self@.pool.total ==> self@.pool.statuses[i] == Some(v@[i])
                },
                RunOutcome::Cancelled => false,
            }),
    {
        self.pool.outcome()
    }

    /// The job behind an index, for the caller that spawns its process.
    pub fn job_at(&self, i: usize) -> (j: &Job)
        requires
            i < self@.jobs.len(),
        ensures
            j@ == self@.jobs[i as int],
    {
        &self.jobs[i]
    }

    pub fn job_count(&self) -> (n: usize)
        ensures
            n == self@.jobs.len(),
    {
        self.jobs.len()
    }

    /// The pool controller's state, for inspection.
    pub fn pool_state(&self) -> (p: &Pool)
        ensures
            p@ == self@.pool,
    {
        &self.pool
    }

    /// The display's state, for rendering and inspection.
    pub fn display_state(&self) -> (d: &ProgressDisplay)
        ensures
            d@ == self@.display,
    {
        &self.display
    }

    /// How many kill-and-wait sequences cancellation has performed.
    pub fn kills_performed(&self) -> (n: usize)
        ensures
            n == self@.kills,
    {
        self.kills
    }

    /// The largest number of processes that were ever in flight at once.
    pub fn max_concurrent(&self) -> (n: usize)
        ensures
            n == self@.max_active,
    {
        self.max_active
    }
}

/// Law: over a whole run, however it interleaves, the high-water mark of
/// simultaneously running processes never exceeds the budget.
pub proof fn lemma_run_respects_budget(m: EngineModel)
    requires
        wf_engine(m),
    ensures
        m.max_active <= m.pool.budget,
{
}

/// Law: cancellation is complete, in one step of the engine. Once the
/// interrupt fires, no job that had not yet acquired a permit ever starts,
/// every worker that had started ends with status `Cancelled` unless it had
/// already finished, and no permit stays out.
pub proof fn lemma_interrupt_completes_cancellation(m: EngineModel)
    requires
        wf_engine(m),
        !m.pool.cancelled,
    ensures
        !can_start_spec(interrupt_model(m).pool),
        interrupt_model(m).pool.active == 0,
        interrupt_model(m).pool.started == m.pool.started,
        forall|i: int|
            0 <= i < m.pool.started && m.pool.statuses[i] is None ==> interrupt_model(
                m,
            ).pool.statuses[i] == Some(JobStatus::Cancelled),
        forall|i: int|
            m.pool.started <= i < m.pool.total ==> interrupt_model(m).pool.statuses[i] is None,
{
    assert(forall|i: int|
        m.pool.started <= i < m.pool.total ==> interrupt_model(m).pool.statuses[i]
            == m.pool.statuses[i]);
}

/// One event's effect on a run; a process exit also frees a permit, so the
/// engine then starts whatever the budget allows.
pub open spec fn trace_step(m: EngineModel, e: EventModel) -> EngineModel {
    match e {
        EventModel::Line { job, line } => line_model(m, job, line),
        EventModel::StreamClosed { job } => stream_closed_model(m, job),
        EventModel::Exited { job, code } => start_ready_model(exited_model(m, job, code)),
        EventModel::Interrupt => interrupt_model(m),
    }
}

/// A whole run: the first wave starts, then the events play out in order.
pub open spec fn run_trace_model(m: EngineModel, events: Seq<EventModel>) -> EngineModel
    decreases events.len(),
{
    if events.len() == 0 {
        m
    } else {
        run_trace_model(trace_step(m, events[0]), events.skip(1))
    }
}

/// Run a batch against a fixed sequence of observed events: start the first
/// wave, play each event, and report the outcome if the run reached its end.
/// This is the engine's whole behaviour as one function of its inputs.
pub fn run_trace(jobs: Vec<Job>, budget: usize, events: Vec<Event>) -> (r: (
    Engine,
    Option<RunOutcome>,
))
    requires
        budget >= 1,
    ensures
        wf_engine(r.0@),
        r.0@ == run_trace_model(
            start_ready_model(engine_new_model(jobs@.map_values(|j: Job| j@), budget as int)),
            events@.map_values(|e: Event| e@),
        ),
        r.1 is Some <==> is_terminal_spec(r.0@.pool),
        r.1 matches Some(o) ==> {
            &&& r.0@.pool.cancelled ==> o is Cancelled
            &&& !r.0@.pool.cancelled ==> (match o {
                RunOutcome::Completed(v) => {
                    &&& v@.len() == r.0@.pool.total
                    &&& forall|i: int|
                        0 <= i < r.0@.pool.total ==> r.0@.pool.statuses[i] == Some(v@[i])
                },
                RunOutcome::Cancelled => false,
            })
        },
{
    let ghost ems = events@.map_values(|e: Event| e@);
    let mut engine = Engine::new(jobs, budget);
    let _ = engine.start_ready();
    let ghost m0 = engine@;
    proof {
        assert(ems.skip(0) =~= ems);
    }
    let mut i: usize = 0;
    while i < events.len()
        invariant
            wf_engine(engine@),
            i <= events.len(),
            ems == events@.map_values(|e: Event| e@),
            ems.len() == events@.len(),
            run_trace_model(engine@, ems.skip(i as int)) == run_trace_model(m0, ems),
        decreases events.len() - i,
    {
        let ghost pre = engine@;
        match &events[i] {
            Event::Line { job, line } => {
                engine.handle_line(*job, line.as_str());
            },
            Event::StreamClosed { job } => {
                engine.handle_stream_closed(*job);
            },
            Event::Exited { job, code } => {
                engine.handle_exited(*job, *code);
                let _ = engine.start_ready();
            },
            Event::Interrupt => {
                let _ = engine.handle_interrupt();
            },
        }
        proof {
            assert(ems[i as int] == events@[i as int]@);
            assert(engine@ == trace_step(pre, ems[i as int]));
            assert(ems.skip(i as int).skip(1) =~= ems.skip(i as int + 1));
            assert(ems.skip(i as int)[0] == ems[i as int]);
            assert(run_trace_model(pre, ems.skip(i as int)) == run_trace_model(
                engine@,
                ems.skip(i as int + 1),
            ));
        }
        i += 1;
    }
    proof {
        assert(ems.skip(events@.len() as int) =~= Seq::<EventModel>::empty());
    }
    let outcome = if engine.is_done() {
        Some(engine.outcome())
    } else {
        None
    };
    (engine, outcome)
}

} // verus!
