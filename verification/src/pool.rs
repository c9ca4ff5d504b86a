use vstd::prelude::*;

verus! {

use crate::JobStatus;
use crate::RunOutcome;
use crate::status_spec;

/// Number of jobs still running (no terminal status yet) among the first
/// `upto` slots of a status table.
pub open spec fn running_count(s: Seq<Option<JobStatus>>, upto: int) -> int
    decreases upto,
{
    if upto <= 0 {
        0
    } else {
        running_count(s, upto - 1) + if s[upto - 1] is None {
            1int
        } else {
            0int
        }
    }
}

proof fn lemma_running_count_bounds(s: Seq<Option<JobStatus>>, upto: int)
    requires
        0 <= upto,
    ensures
        0 <= running_count(s, upto) <= upto,
    decreases upto,
{
    if upto > 0 {
        lemma_running_count_bounds(s, upto - 1);
    }
}

proof fn lemma_running_count_zero(s: Seq<Option<JobStatus>>, upto: int)
    requires
        running_count(s, upto) == 0,
    ensures
        forall|i: int| 0 <= i < upto ==> s[i] is Some,
    decreases upto,
{
    if upto > 0 {
        lemma_running_count_bounds(s, upto - 1);
        lemma_running_count_zero(s, upto - 1);
    }
}

pub proof fn lemma_running_count_all_some(s: Seq<Option<JobStatus>>, upto: int)
    requires
        forall|i: int| 0 <= i < upto ==> s[i] is Some,
    ensures
        running_count(s, upto) == 0,
    decreases upto,
{
    if upto > 0 {
        lemma_running_count_all_some(s, upto - 1);
    }
}

proof fn lemma_running_count_pos(s: Seq<Option<JobStatus>>, upto: int, i: int)
    requires
        0 <= i < upto,
        s[i] is None,
    ensures
        running_count(s, upto) >= 1,
    decreases upto,
{
    lemma_running_count_bounds(s, upto - 1);
    if i < upto - 1 {
        lemma_running_count_pos(s, upto - 1, i);
    }
}

proof fn lemma_running_count_update(s: Seq<Option<JobStatus>>, upto: int, i: int, v: JobStatus)
    requires
        0 <= i < upto <= s.len(),
        s[i] is None,
    ensures
        running_count(s.update(i, Some(v)), upto) == running_count(s, upto) - 1,
    decreases upto,
{
    let t = s.update(i, Some(v));
    if i == upto - 1 {
        assert(forall|j: int| 0 <= j < upto - 1 ==> s[j] == t[j]);
        lemma_running_count_same(s, t, upto - 1);
    } else {
        lemma_running_count_update(s, upto - 1, i, v);
        assert(t[upto - 1] == s[upto - 1]);
    }
}

proof fn lemma_running_count_same(s: Seq<Option<JobStatus>>, t: Seq<Option<JobStatus>>, upto: int)
    requires
        forall|j: int| 0 <= j < upto ==> s[j] == t[j],
    ensures
        running_count(s, upto) == running_count(t, upto),
    decreases upto,
{
    if upto > 0 {
        lemma_running_count_same(s, t, upto - 1);
    }
}

/// The mathematical state of a pool controller: how many permits the
/// concurrency budget allows, which jobs have started, which have reached a
/// terminal status, and whether the single-fire cancellation has happened.
#[verifier::ext_equal]
pub struct PoolModel {
    pub budget: int,
    pub total: int,
    pub started: int,
    pub active: int,
    pub acquired: int,
    pub released: int,
    pub cancelled: bool,
    pub statuses: Seq<Option<JobStatus>>,
}

/// Well-formedness of a pool: jobs start in submission order, every started
/// job holds exactly one permit until its terminal status is recorded, and the
/// outstanding permits never exceed the budget.
pub open spec fn wf(m: PoolModel) -> bool {
    &&& m.budget >= 1
    &&& m.statuses.len() == m.total
    &&& 0 <= m.started <= m.total
    &&& m.active == running_count(m.statuses, m.started)
    &&& forall|i: int| m.started <= i < m.total ==> m.statuses[i] is None
    &&& 0 <= m.active <= m.budget
    &&& m.acquired == m.started
    &&& m.released == m.started - m.active
}

/// A new job may start only if cancellation has not fired, jobs remain, and a
/// permit is free under the budget.
pub open spec fn can_start_spec(m: PoolModel) -> bool {
    !m.cancelled && m.started < m.total && m.active < m.budget
}

/// The run is over once no worker is in flight and either cancellation fired
/// or every job has been started (and hence finished).
pub open spec fn is_terminal_spec(m: PoolModel) -> bool {
    m.active == 0 && (m.cancelled || m.started == m.total)
}

/// The pool controller: owns the concurrency budget, hands out one permit per
/// started job, records each worker's terminal status, and carries the
/// single-fire cancellation flag.
pub struct Pool {
    budget: usize,
    total: usize,
    started: usize,
    active: usize,
    acquired: usize,
    released: usize,
    cancelled: bool,
    statuses: Vec<Option<JobStatus>>,
}

impl View for Pool {
    type V = PoolModel;

    closed spec fn view(&self) -> PoolModel {
        PoolModel {
            budget: self.budget as int,
            total: self.total as int,
            started: self.started as int,
            active: self.active as int,
            acquired: self.acquired as int,
            released: self.released as int,
            cancelled: self.cancelled,
            statuses: self.statuses@,
        }
    }
}

impl Pool {
    /// Create a pool for `total` jobs under a positive concurrency budget.
    pub fn new(total: usize, budget: usize) -> (p: Pool)
        requires
            budget >= 1,
        ensures
            wf(p@),
            p@ == (PoolModel {
                budget: budget as int,
                total: total as int,
                started: 0,
                active: 0,
                acquired: 0,
                released: 0,
                cancelled: false,
                statuses: Seq::new(total as nat, |i: int| None),
            }),
    {
        let mut statuses: Vec<Option<JobStatus>> = Vec::new();
        let mut i: usize = 0;
        while i < total
            invariant
                i <= total,
                statuses@ =~= Seq::new(i as nat, |j: int| None::<JobStatus>),
            decreases total - i,
        {
            statuses.push(None);
            i += 1;
        }
        let p = Pool {
            budget,
            total,
            started: 0,
            active: 0,
            acquired: 0,
            released: 0,
            cancelled: false,
            statuses,
        };
        proof {
            assert(p@.statuses =~= Seq::new(total as nat, |i: int| None::<JobStatus>));
            assert(p@ =~= (PoolModel {
                budget: budget as int,
                total: total as int,
                started: 0,
                active: 0,
                acquired: 0,
                released: 0,
                cancelled: false,
                statuses: Seq::new(total as nat, |i: int| None),
            }));
        }
        p
    }

    pub fn can_start(&self) -> (r: bool)
        ensures
            r == can_start_spec(self@),
    {
        !self.cancelled && self.started < self.total && self.active < self.budget
    }

    pub fn is_terminal(&self) -> (r: bool)
        ensures
            r == is_terminal_spec(self@),
    {
        self.active == 0 && (self.cancelled || self.started == self.total)
    }

    pub fn is_cancelled(&self) -> (r: bool)
        ensures
            r == self@.cancelled,
    {
        self.cancelled
    }

    pub fn active_permits(&self) -> (r: usize)
        ensures
            r == self@.active,
    {
        self.active
    }

    pub fn started_jobs(&self) -> (r: usize)
        ensures
            r == self@.started,
    {
        self.started
    }

    pub fn total_jobs(&self) -> (r: usize)
        ensures
            r == self@.total,
    {
        self.total
    }

    pub fn budget_limit(&self) -> (r: usize)
        ensures
            r == self@.budget,
    {
        self.budget
    }

    pub fn permits_acquired(&self) -> (r: usize)
        ensures
            r == self@.acquired,
    {
        self.acquired
    }

    pub fn permits_released(&self) -> (r: usize)
        ensures
            r == self@.released,
    {
        self.released
    }

    /// Whether job `job` has started but not yet reached a terminal status.
    pub fn is_running(&self, job: usize) -> (r: bool)
        requires
            job < self@.total,
            wf(self@),
        ensures
            r == (job < self@.started && self@.statuses[job as int] is None),
    {
        job < self.started && self.statuses[job].is_none()
    }

    /// Acquire a permit and start the next job, in submission order.
    pub fn start_next(&mut self) -> (job: usize)
        requires
            wf(old(self)@),
            can_start_spec(old(self)@),
        ensures
            wf(final(self)@),
            job == old(self)@.started,
            final(self)@ == (PoolModel {
                started: old(self)@.started + 1,
                active: old(self)@.active + 1,
                acquired: old(self)@.acquired + 1,
                ..old(self)@
            }),
    {
        let job = self.started;
        self.started = self.started + 1;
        self.active = self.active + 1;
        self.acquired = self.acquired + 1;
        proof {
            assert(old(self)@.statuses[old(self)@.started] is None);
            assert(running_count(self@.statuses, self@.started) == running_count(
                old(self)@.statuses,
                old(self)@.started,
            ) + 1);
        }
        job
    }

    /// Record the exit of a running job's process and release its permit.
    pub fn finish(&mut self, job: usize, code: i32)
        requires
            wf(old(self)@),
            job < old(self)@.started,
            old(self)@.statuses[job as int] is None,
        ensures
            wf(final(self)@),
            final(self)@ == (PoolModel {
                active: old(self)@.active - 1,
                released: old(self)@.released + 1,
                statuses: old(self)@.statuses.update(job as int, Some(status_spec(code))),
                ..old(self)@
            }),
    {
        proof {
            lemma_running_count_pos(old(self)@.statuses, old(self)@.started, job as int);
            lemma_running_count_update(
                old(self)@.statuses,
                old(self)@.started,
                job as int,
                status_spec(code),
            );
        }
        let status = crate::status_of_exit(code);
        self.statuses[job] = Some(status);
        self.active = self.active - 1;
        self.released = self.released + 1;
    }

    /// Record that a running job's worker observed cancellation, killed its
    /// process and released its permit.
    pub fn finish_cancelled(&mut self, job: usize)
        requires
            wf(old(self)@),
            old(self)@.cancelled,
            job < old(self)@.started,
            old(self)@.statuses[job as int] is None,
        ensures
            wf(final(self)@),
            final(self)@ == (PoolModel {
                active: old(self)@.active - 1,
                released: old(self)@.released + 1,
                statuses: old(self)@.statuses.update(job as int, Some(JobStatus::Cancelled)),
                ..old(self)@
            }),
    {
        proof {
            lemma_running_count_pos(old(self)@.statuses, old(self)@.started, job as int);
            lemma_running_count_update(
                old(self)@.statuses,
                old(self)@.started,
                job as int,
                JobStatus::Cancelled,
            );
        }
        self.statuses[job] = Some(JobStatus::Cancelled);
        self.active = self.active - 1;
        self.released = self.released + 1;
    }

    /// Fire the cancellation: single-shot and idempotent, it only ever sets
    /// the flag.
    pub fn cancel_fire(&mut self)
        ensures
            final(self)@ == (PoolModel { cancelled: true, ..old(self)@ }),
            wf(old(self)@) ==> wf(final(self)@),
    {
        self.cancelled = true;
    }

    /// The terminal result of the whole batch. Cancellation supersedes
    /// everything; otherwise every job ran and its exit status is reported.
    pub fn outcome(&self) -> (r: RunOutcome)
        requires
            wf(self@),
            is_terminal_spec(self@),
        ensures
            self@.cancelled ==> r is Cancelled,
            !self@.cancelled ==> (match r {
                RunOutcome::Completed(v) => {
                    &&& v@.len() == self@.total
                    &&& forall|i: int|
                        0 <= i < self@.total ==> self@.statuses[i] == Some(v@[i])
                },
                RunOutcome::Cancelled => false,
            }),
    {
        if self.cancelled {
            return RunOutcome::Cancelled;
        }
        proof {
            lemma_running_count_zero(self@.statuses, self@.started);
        }
        let mut v: Vec<JobStatus> = Vec::new();
        let mut i: usize = 0;
        while i < self.total
            invariant
                wf(self@),
                self@.started == self@.total,
                forall|j: int| 0 <= j < self@.total ==> self@.statuses[j] is Some,
                i <= self@.total,
                v@.len() == i,
                forall|j: int| 0 <= j < i ==> self@.statuses[j] == Some(v@[j]),
            decreases self.total - i,
        {
            let s = self.statuses[i].unwrap();
            v.push(s);
            i += 1;
        }
        RunOutcome::Completed(v)
    }
}

/// Law: in every well-formed pool state the number of outstanding permits
/// (simultaneously running external processes) never exceeds the budget.
pub proof fn lemma_budget_never_exceeded(m: PoolModel)
    requires
        wf(m),
    ensures
        0 <= m.active <= m.budget,
{
}

/// Law: permits are conserved. In every well-formed pool state the permits
/// acquired equal the permits released plus those still held, so a run that
/// ends with no worker in flight has released exactly what it acquired.
pub proof fn lemma_permit_conservation(m: PoolModel)
    requires
        wf(m),
    ensures
        m.acquired == m.released + m.active,
        m.active == 0 ==> m.acquired == m.released,
{
}

/// Law: once cancellation has fired, no further job can start.
pub proof fn lemma_cancelled_blocks_start(m: PoolModel)
    requires
        m.cancelled,
    ensures
        !can_start_spec(m),
{
}

/// How the concurrency budget is derived from configuration: absent
/// configuration means fully serial; a bare flag means one process per
/// available CPU; an explicit count is capped at the available CPUs.
pub open spec fn budget_spec(parallel: Option<Option<usize>>, cpus: int) -> int {
    match parallel {
        None => 1,
        Some(None) => cpus,
        Some(Some(x)) => if x <= cpus {
            x as int
        } else {
            cpus
        },
    }
}

pub fn compute_budget(parallel: &Option<Option<usize>>, cpus: usize) -> (b: usize)
    ensures
        b == budget_spec(*parallel, cpus as int),
{
    match parallel {
        None => 1,
        Some(None) => cpus,
        Some(Some(x)) => if *x <= cpus {
            *x
        } else {
            cpus
        },
    }
}

/// Relies on num_cpus::get for the number of available logical CPUs; its
/// documentation promises the result is at least 1.
#[verifier::external_body]
fn available_cpus() -> (n: usize)
    ensures
        n >= 1,
{
    num_cpus::get()
}

/// Derive the budget for this machine. The result is positive whenever the
/// configuration asks for a positive amount of parallelism, and an explicit
/// request is never exceeded.
pub fn configured_budget(parallel: &Option<Option<usize>>) -> (b: usize)
    ensures
        (*parallel) is None ==> b == 1,
        (*parallel) matches Some(None) ==> b >= 1,
        (*parallel) matches Some(Some(x)) ==> b <= x && (x >= 1 ==> b >= 1) && (x == 0 ==> b
            == 0),
{
    let cpus = available_cpus();
    compute_budget(parallel, cpus)
}

} // verus!
