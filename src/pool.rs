//! The bookkeeping of a worker pool: its workers, its intake queue of jobs,
//! and the transitions between their states.
//!
//! Jobs are numbered in the order they are submitted. Queued jobs are always
//! the contiguous range `head..jobs.len()`, so a worker always takes the
//! oldest queued job.
use vstd::prelude::*;

verus! {

/// Errors reported by the pool itself.
#[derive(Clone, Copy, Debug, PartialEq, Eq, Structural)]
pub enum PoolError {
    /// A pool was asked for with no workers.
    Config,
    /// A job was submitted after shutdown had begun; it will not run.
    Submission,
}

/// Where a submitted job is in its life.
#[derive(Clone, Copy, Debug, PartialEq, Eq, Structural)]
pub enum JobStatus {
    /// Waiting in the intake queue.
    Queued,
    /// Being run by the worker with this index.
    Running(usize),
    /// Run to its end; `true` when it succeeded, `false` on an internal failure.
    Done(bool),
}

/// The state of one worker.
#[derive(Clone, Copy, Debug, PartialEq, Eq, Structural)]
pub enum WorkerState {
    /// Waiting for a job.
    Idle,
    /// Running the job with this number.
    Running(usize),
    /// Left its loop: the queue was closed and drained.
    Stopped,
    /// Its execution context was lost while running a job.
    Terminated,
}

/// What a worker asking for work is told.
#[derive(Clone, Copy, Debug, PartialEq, Eq, Structural)]
pub enum Receive {
    /// Run the job with this number.
    Job(usize),
    /// Nothing is queued yet; ask again later.
    Wait,
    /// The queue is closed and drained: leave the loop.
    EndOfStream,
}

/// The abstract state of a pool.
pub struct PoolModel {
    pub workers: Seq<WorkerState>,
    pub jobs: Seq<JobStatus>,
    /// Number of jobs handed out so far; jobs from here on are queued.
    pub head: nat,
    /// Whether the intake queue still accepts jobs.
    pub open: bool,
}

impl PoolModel {
    /// A pool of `n` idle workers with nothing submitted.
    pub open spec fn initial(n: nat) -> PoolModel {
        PoolModel {
            workers: Seq::new(n, |i: int| WorkerState::Idle),
            jobs: Seq::empty(),
            head: 0,
            open: true,
        }
    }

    pub open spec fn wf(self) -> bool {
        &&& 1 <= self.workers.len() <= usize::MAX
        &&& self.jobs.len() <= usize::MAX
        &&& self.head <= self.jobs.len()
        &&& forall|j: int|
            0 <= j < self.jobs.len() ==> (#[trigger] self.jobs[j] is Queued <==> j >= self.head)
        &&& forall|j: int|
            0 <= j < self.jobs.len() && #[trigger] self.jobs[j] is Running ==> {
                let w = self.jobs[j]->Running_0 as int;
                0 <= w < self.workers.len() && self.workers[w] == WorkerState::Running(j as usize)
            }
        &&& forall|w: int|
            0 <= w < self.workers.len() && #[trigger] self.workers[w] is Running ==> {
                let j = self.workers[w]->Running_0 as int;
                0 <= j < self.jobs.len() && self.jobs[j] == JobStatus::Running(w as usize)
            }
        &&& forall|w: int|
            0 <= w < self.workers.len() && #[trigger] self.workers[w] is Stopped ==> !self.open
                && self.head == self.jobs.len()
    }

    /// The state after a job is accepted by an open pool.
    pub open spec fn submitted(self) -> PoolModel {
        PoolModel { jobs: self.jobs.push(JobStatus::Queued), ..self }
    }

    /// The state after idle worker `w` asks for work.
    pub open spec fn taken(self, w: int) -> PoolModel {
        if self.head < self.jobs.len() {
            PoolModel {
                workers: self.workers.update(w, WorkerState::Running(self.head as usize)),
                jobs: self.jobs.update(self.head as int, JobStatus::Running(w as usize)),
                head: self.head + 1,
                ..self
            }
        } else if !self.open {
            PoolModel { workers: self.workers.update(w, WorkerState::Stopped), ..self }
        } else {
            self
        }
    }

    /// What idle worker `w` is told when it asks for work.
    pub open spec fn take_result(self, w: int) -> Receive {
        if self.head < self.jobs.len() {
            Receive::Job(self.head as usize)
        } else if !self.open {
            Receive::EndOfStream
        } else {
            Receive::Wait
        }
    }

    /// The job that worker `w` is running.
    pub open spec fn job_of(self, w: int) -> int {
        self.workers[w]->Running_0 as int
    }

    /// The state after worker `w` returns from its job, with the job's outcome.
    pub open spec fn finished(self, w: int, ok: bool) -> PoolModel {
        PoolModel {
            workers: self.workers.update(w, WorkerState::Idle),
            jobs: self.jobs.update(self.job_of(w), JobStatus::Done(ok)),
            ..self
        }
    }

    /// The state after worker `w` is lost while running its job; the job
    /// counts as failed.
    pub open spec fn abandoned(self, w: int) -> PoolModel {
        PoolModel {
            workers: self.workers.update(w, WorkerState::Terminated),
            jobs: self.jobs.update(self.job_of(w), JobStatus::Done(false)),
            ..self
        }
    }

    /// The state after shutdown has begun.
    pub open spec fn closed(self) -> PoolModel {
        PoolModel { open: false, ..self }
    }

    /// Shutdown has begun and every worker has left its loop.
    pub open spec fn joined(self) -> bool {
        &&& !self.open
        &&& forall|w: int|
            0 <= w < self.workers.len() ==> (#[trigger] self.workers[w] is Stopped
                || self.workers[w] is Terminated)
    }
}

/// Retiring the job of a running worker, and moving that worker to a state
/// that holds no job and is not `Stopped`, keeps the pool well formed.
proof fn lemma_retire_wf(m: PoolModel, w: int, ws: WorkerState, js: JobStatus)
    requires
        m.wf(),
        0 <= w < m.workers.len(),
        m.workers[w] is Running,
        !(ws is Running),
        !(ws is Stopped),
        js is Done,
    ensures
        (PoolModel {
            workers: m.workers.update(w, ws),
            jobs: m.jobs.update(m.job_of(w), js),
            ..m
        }).wf(),
{
    let j = m.job_of(w);
    let n = PoolModel { workers: m.workers.update(w, ws), jobs: m.jobs.update(j, js), ..m };
    assert forall|k: int| 0 <= k < n.jobs.len() && #[trigger] n.jobs[k] is Running implies {
        let v = n.jobs[k]->Running_0 as int;
        0 <= v < n.workers.len() && n.workers[v] == WorkerState::Running(k as usize)
    } by {
        let v = m.jobs[k]->Running_0 as int;
        assert(m.jobs[k] is Running);
        if v == w {
            assert(m.workers[w] == WorkerState::Running(k as usize));
        }
    }
    assert forall|v: int| 0 <= v < n.workers.len() && #[trigger] n.workers[v] is Running implies {
        let k = n.workers[v]->Running_0 as int;
        0 <= k < n.jobs.len() && n.jobs[k] == JobStatus::Running(v as usize)
    } by {
        assert(m.workers[v] is Running);
    }
}

/// Number of terminated workers in `s`.
pub open spec fn count_terminated(s: Seq<WorkerState>) -> nat
    decreases s.len(),
{
    if s.len() == 0 {
        0
    } else {
        count_terminated(s.drop_last()) + if s.last() is Terminated {
            1nat
        } else {
            0nat
        }
    }
}

/// The state of a pool: its workers and every job submitted to it.
pub struct Pool {
    workers: Vec<WorkerState>,
    jobs: Vec<JobStatus>,
    head: usize,
    open: bool,
}

impl View for Pool {
    type V = PoolModel;

    closed spec fn view(&self) -> PoolModel {
        PoolModel {
            workers: self.workers@,
            jobs: self.jobs@,
            head: self.head as nat,
            open: self.open,
        }
    }
}

impl Pool {
    /// A pool of `n` workers, all idle, with an open, empty queue.
    /// A pool with no workers is a configuration error.
    pub fn new(n: usize) -> (r: Result<Pool, PoolError>)
        ensures
            n == 0 <==> r is Err,
            r is Err ==> r == Err::<Pool, PoolError>(PoolError::Config),
            r matches Ok(p) ==> p@ == PoolModel::initial(n as nat) && p@.wf(),
            r matches Ok(p) ==> p@.workers.len() == n && p@.jobs.len() == 0 && p@.open
                && forall|w: int| 0 <= w < n ==> #[trigger] p@.workers[w] == WorkerState::Idle,
    {
        if n == 0 {
            return Err(PoolError::Config);
        }
        let mut workers: Vec<WorkerState> = Vec::new();
        let mut i: usize = 0;
        while i < n
            invariant
                i <= n,
                workers@ == Seq::new(i as nat, |k: int| WorkerState::Idle),
            decreases n - i,
        {
            workers.push(WorkerState::Idle);
            i = i + 1;
            assert(workers@ =~= Seq::new(i as nat, |k: int| WorkerState::Idle));
        }
        let p = Pool { workers, jobs: Vec::new(), head: 0, open: true };
        assert(p@ =~= PoolModel::initial(n as nat));
        Ok(p)
    }

    /// Accepts a job while the pool is open, returning its number; after
    /// shutdown has begun the job is refused and nothing changes.
    pub fn execute(&mut self) -> (r: Result<usize, PoolError>)
        requires
            old(self)@.wf(),
            old(self)@.jobs.len() < usize::MAX,
        ensures
            final(self)@.wf(),
            old(self)@.open ==> r == Ok::<usize, PoolError>(old(self)@.jobs.len() as usize)
                && final(self)@ == old(self)@.submitted(),
            !old(self)@.open ==> r == Err::<usize, PoolError>(PoolError::Submission)
                && final(self)@ == old(self)@,
    {
        if !self.open {
            return Err(PoolError::Submission);
        }
        let id = self.jobs.len();
        self.jobs.push(JobStatus::Queued);
        assert(self@ =~= old(self)@.submitted());
        Ok(id)
    }

    /// Idle worker `w` asks for work: it takes the oldest queued job, or
    /// stops when the queue is closed and drained, or is told to wait.
    pub fn take(&mut self, w: usize) -> (r: Receive)
        requires
            old(self)@.wf(),
            w < old(self)@.workers.len(),
            old(self)@.workers[w as int] == WorkerState::Idle,
        ensures
            final(self)@.wf(),
            final(self)@ == old(self)@.taken(w as int),
            r == old(self)@.take_result(w as int),
    {
        if self.head < self.jobs.len() {
            let j = self.head;
            self.jobs.set(j, JobStatus::Running(w));
            self.workers.set(w, WorkerState::Running(j));
            self.head = j + 1;
            assert(self@ =~= old(self)@.taken(w as int));
            Receive::Job(j)
        } else if !self.open {
            self.workers.set(w, WorkerState::Stopped);
            assert(self@ =~= old(self)@.taken(w as int));
            Receive::EndOfStream
        } else {
            Receive::Wait
        }
    }

    /// Worker `w` returns from its job with the job's outcome and becomes
    /// idle again, whether the job succeeded or failed. Returns the job's
    /// number.
    pub fn finish(&mut self, w: usize, ok: bool) -> (r: usize)
        requires
            old(self)@.wf(),
            w < old(self)@.workers.len(),
            old(self)@.workers[w as int] is Running,
        ensures
            final(self)@.wf(),
            r == old(self)@.job_of(w as int),
            final(self)@ == old(self)@.finished(w as int, ok),
    {
        let j = match self.workers[w] {
            WorkerState::Running(j) => j,
            _ => 0,
        };
        proof {
            lemma_retire_wf(self@, w as int, WorkerState::Idle, JobStatus::Done(ok));
        }
        self.jobs.set(j, JobStatus::Done(ok));
        self.workers.set(w, WorkerState::Idle);
        assert(self@ =~= old(self)@.finished(w as int, ok));
        j
    }

    /// Worker `w` was lost while running its job: the worker is terminated
    /// and its job counts as failed. Returns the job's number.
    pub fn abandon(&mut self, w: usize) -> (r: usize)
        requires
            old(self)@.wf(),
            w < old(self)@.workers.len(),
            old(self)@.workers[w as int] is Running,
        ensures
            final(self)@.wf(),
            r == old(self)@.job_of(w as int),
            final(self)@ == old(self)@.abandoned(w as int),
    {
        let j = match self.workers[w] {
            WorkerState::Running(j) => j,
            _ => 0,
        };
        proof {
            lemma_retire_wf(self@, w as int, WorkerState::Terminated, JobStatus::Done(false));
        }
        self.jobs.set(j, JobStatus::Done(false));
        self.workers.set(w, WorkerState::Terminated);
        assert(self@ =~= old(self)@.abandoned(w as int));
        j
    }

    /// Begins shutdown: the queue accepts no more jobs, and queued jobs are
    /// still handed out. Returns `true` on the first call and `false` on any
    /// later one, which changes nothing.
    pub fn shutdown(&mut self) -> (r: bool)
        requires
            old(self)@.wf(),
        ensures
            final(self)@.wf(),
            r == old(self)@.open,
            final(self)@ == old(self)@.closed(),
            !old(self)@.open ==> final(self)@ == old(self)@,
    {
        let was_open = self.open;
        self.open = false;
        assert(self@ =~= old(self)@.closed());
        was_open
    }

    /// Whether shutdown has begun and every worker has left its loop, so
    /// that joining the workers will not wait.
    pub fn is_joined(&self) -> (r: bool)
        ensures
            r == self@.joined(),
    {
        if self.open {
            return false;
        }
        let mut i: usize = 0;
        while i < self.workers.len()
            invariant
                i <= self.workers@.len(),
                !self.open,
                forall|w: int|
                    0 <= w < i ==> (#[trigger] self.workers@[w] is Stopped
                        || self.workers@[w] is Terminated),
            decreases self.workers@.len() - i,
        {
            match self.workers[i] {
                WorkerState::Stopped => {},
                WorkerState::Terminated => {},
                _ => {
                    return false;
                },
            }
            i = i + 1;
        }
        true
    }

    /// Number of workers whose execution context was lost.
    pub fn degraded_workers(&self) -> (r: usize)
        ensures
            r == count_terminated(self@.workers),
    {
        let mut count: usize = 0;
        let mut i: usize = 0;
        while i < self.workers.len()
            invariant
                i <= self.workers@.len(),
                count == count_terminated(self.workers@.take(i as int)),
                count <= i,
            decreases self.workers@.len() - i,
        {
            assert(self.workers@.take(i as int + 1).drop_last() =~= self.workers@.take(i as int));
            if let WorkerState::Terminated = self.workers[i] {
                count = count + 1;
            }
            i = i + 1;
        }
        assert(self.workers@.take(i as int) =~= self.workers@);
        count
    }

    /// Number of workers; fixed when the pool is made.
    pub fn worker_count(&self) -> (r: usize)
        ensures
            r == self@.workers.len(),
    {
        self.workers.len()
    }

    /// The state of worker `w`.
    pub fn worker_state(&self, w: usize) -> (r: WorkerState)
        requires
            w < self@.workers.len(),
        ensures
            r == self@.workers[w as int],
    {
        self.workers[w]
    }

    /// Number of jobs accepted so far.
    pub fn submitted_count(&self) -> (r: usize)
        ensures
            r == self@.jobs.len(),
    {
        self.jobs.len()
    }

    /// The status of job `j`.
    pub fn job_status(&self, j: usize) -> (r: JobStatus)
        requires
            j < self@.jobs.len(),
        ensures
            r == self@.jobs[j as int],
    {
        self.jobs[j]
    }

    /// Whether the pool still accepts jobs.
    pub fn is_open(&self) -> (r: bool)
        ensures
            r == self@.open,
    {
        self.open
    }
}

/// Once shutdown has begun and the workers have left their loops, with at
/// least one of them stopped normally, every job that was accepted has run to
/// its end.
pub proof fn lemma_joined_pool_ran_every_job(m: PoolModel)
    requires
        m.wf(),
        m.joined(),
        exists|w: int| 0 <= w < m.workers.len() && #[trigger] m.workers[w] is Stopped,
    ensures
        forall|j: int| 0 <= j < m.jobs.len() ==> #[trigger] m.jobs[j] is Done,
{
    let w = choose|w: int| 0 <= w < m.workers.len() && #[trigger] m.workers[w] is Stopped;
    assert(m.head == m.jobs.len());
    assert forall|j: int| 0 <= j < m.jobs.len() implies #[trigger] m.jobs[j] is Done by {
        if m.jobs[j] is Running {
            let v = m.jobs[j]->Running_0 as int;
            assert(m.workers[v] is Stopped || m.workers[v] is Terminated);
        }
    }
}

/// No two workers ever run the same job.
pub proof fn lemma_no_shared_job(m: PoolModel, v: int, w: int)
    requires
        m.wf(),
        0 <= v < m.workers.len(),
        0 <= w < m.workers.len(),
        v != w,
        m.workers[v] is Running,
        m.workers[w] is Running,
    ensures
        m.job_of(v) != m.job_of(w),
{
    assert(m.jobs[m.job_of(v)] == JobStatus::Running(v as usize));
    assert(m.jobs[m.job_of(w)] == JobStatus::Running(w as usize));
}

/// A job leaves the queue at most once: no step puts a job back in the
/// queue or changes the outcome of a finished job, and taking work changes
/// the status of the oldest queued job alone.
pub proof fn lemma_job_leaves_queue_once(m: PoolModel, w: int, ok: bool)
    requires
        m.wf(),
        0 <= w < m.workers.len(),
    ensures
        forall|j: int|
            0 <= j < m.jobs.len() && !(#[trigger] m.jobs[j] is Queued) ==> {
                &&& !(m.submitted().jobs[j] is Queued)
                &&& !(m.closed().jobs[j] is Queued)
                &&& m.workers[w] == WorkerState::Idle ==> m.taken(w).jobs[j] == m.jobs[j]
                &&& m.workers[w] is Running ==> !(m.finished(w, ok).jobs[j] is Queued)
                &&& m.workers[w] is Running ==> !(m.abandoned(w).jobs[j] is Queued)
            },
        forall|j: int|
            0 <= j < m.jobs.len() && #[trigger] m.jobs[j] is Done ==> {
                &&& m.workers[w] == WorkerState::Idle ==> m.taken(w).jobs[j] == m.jobs[j]
                &&& m.workers[w] is Running ==> m.finished(w, ok).jobs[j] == m.jobs[j]
                &&& m.workers[w] is Running ==> m.abandoned(w).jobs[j] == m.jobs[j]
            },
        m.workers[w] == WorkerState::Idle ==> forall|j: int|
            0 <= j < m.jobs.len() && j != m.head ==> #[trigger] m.taken(w).jobs[j] == m.jobs[j],
{
    if m.workers[w] is Running {
        assert(m.jobs[m.job_of(w)] == JobStatus::Running(w as usize));
    }
}

/// A job that fails leaves its worker idle and the queue as it was, so the
/// next queued job is still handed out.
pub proof fn lemma_failed_job_does_not_block(m: PoolModel, w: int)
    requires
        m.wf(),
        0 <= w < m.workers.len(),
        m.workers[w] is Running,
    ensures
        m.finished(w, false).wf(),
        m.finished(w, false).workers[w] == WorkerState::Idle,
        m.finished(w, false).head == m.head,
        m.finished(w, false).open == m.open,
        m.finished(w, false).jobs.len() == m.jobs.len(),
        m.head < m.jobs.len() ==> m.finished(w, false).take_result(w) == Receive::Job(
            m.head as usize,
        ),
        m.head < m.jobs.len() ==> m.finished(w, false).taken(w).jobs[m.head as int]
            == JobStatus::Running(w as usize),
{
    lemma_retire_wf(m, w, WorkerState::Idle, JobStatus::Done(false));
}

/// Once shutdown has begun, no step opens the pool again or adds a job, and
/// a further shutdown changes nothing.
pub proof fn lemma_shutdown_is_final(m: PoolModel, w: int, ok: bool)
    requires
        m.wf(),
        !m.open,
        0 <= w < m.workers.len(),
    ensures
        m.closed() == m,
        m.workers[w] == WorkerState::Idle ==> !m.taken(w).open && m.taken(w).jobs.len()
            == m.jobs.len(),
        m.workers[w] is Running ==> !m.finished(w, ok).open && m.finished(w, ok).jobs.len()
            == m.jobs.len(),
        m.workers[w] is Running ==> !m.abandoned(w).open && m.abandoned(w).jobs.len()
            == m.jobs.len(),
{
}

/// Calling shutdown a second time leaves the pool as the first call left it.
pub proof fn lemma_shutdown_idempotent(m: PoolModel)
    ensures
        m.closed().closed() == m.closed(),
{
}

} // verus!
