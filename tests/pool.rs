use std::cell::RefCell;
use std::rc::Rc;
use tick_pool::pool::{JobStatus, Pool, PoolError, Receive, WorkerState};

type Job = Box<dyn FnOnce() -> Result<(), String>>;

/// Drives every worker of `pool` in turn, each taking, running and finishing
/// one job per round, until all of them have left their loops.
fn run_until_joined(pool: &mut Pool, jobs: &mut Vec<Option<Job>>) {
    let n = pool.worker_count();
    while !pool.is_joined() {
        for w in 0..n {
            if pool.worker_state(w) != WorkerState::Idle {
                continue;
            }
            if let Receive::Job(j) = pool.take(w) {
                let job = jobs[j].take().expect("job handed out twice");
                let ok = job().is_ok();
                assert_eq!(pool.finish(w, ok), j);
            }
        }
    }
}

fn submit(pool: &mut Pool, jobs: &mut Vec<Option<Job>>, job: Job) -> Result<usize, PoolError> {
    let id = pool.execute()?;
    assert_eq!(id, jobs.len());
    jobs.push(Some(job));
    Ok(id)
}

#[test]
fn new_pool_has_idle_workers() {
    let p = Pool::new(4).unwrap();
    assert_eq!(p.worker_count(), 4);
    for w in 0..4 {
        assert_eq!(p.worker_state(w), WorkerState::Idle);
    }
    assert_eq!(p.submitted_count(), 0);
    assert!(p.is_open());
    assert!(!p.is_joined());
}

#[test]
fn zero_workers_is_config_error() {
    assert!(matches!(Pool::new(0), Err(PoolError::Config)));
}

#[test]
fn execute_after_shutdown_is_refused() {
    let mut p = Pool::new(1).unwrap();
    assert_eq!(p.execute(), Ok(0));
    assert!(p.shutdown());
    assert_eq!(p.execute(), Err(PoolError::Submission));
    assert_eq!(p.submitted_count(), 1);
}

#[test]
fn refused_job_never_runs() {
    let mut pool = Pool::new(2).unwrap();
    let mut jobs: Vec<Option<Job>> = Vec::new();
    let ran = Rc::new(RefCell::new(false));
    assert!(pool.shutdown());
    let flag = ran.clone();
    let refused = submit(&mut pool, &mut jobs, Box::new(move || {
        *flag.borrow_mut() = true;
        Ok(())
    }));
    assert_eq!(refused, Err(PoolError::Submission));
    run_until_joined(&mut pool, &mut jobs);
    assert!(!*ran.borrow());
    assert_eq!(pool.submitted_count(), 0);
}

#[test]
fn ten_jobs_on_three_workers_each_run_once() {
    let mut pool = Pool::new(3).unwrap();
    let mut jobs: Vec<Option<Job>> = Vec::new();
    let seen = Rc::new(RefCell::new(Vec::new()));
    for i in 0..10usize {
        let s = seen.clone();
        submit(&mut pool, &mut jobs, Box::new(move || {
            s.borrow_mut().push(i);
            Ok(())
        }))
        .unwrap();
    }
    assert!(pool.shutdown());
    run_until_joined(&mut pool, &mut jobs);
    let mut got = seen.borrow().clone();
    assert_eq!(got.len(), 10);
    got.sort();
    assert_eq!(got, (0..10).collect::<Vec<usize>>());
    for j in 0..10 {
        assert_eq!(pool.job_status(j), JobStatus::Done(true));
    }
    assert_eq!(pool.degraded_workers(), 0);
}

#[test]
fn failed_job_does_not_stop_the_next() {
    let mut pool = Pool::new(2).unwrap();
    let mut jobs: Vec<Option<Job>> = Vec::new();
    let marker = Rc::new(RefCell::new(false));
    submit(&mut pool, &mut jobs, Box::new(|| Err(String::from("conversion failed")))).unwrap();
    let m = marker.clone();
    submit(&mut pool, &mut jobs, Box::new(move || {
        *m.borrow_mut() = true;
        Ok(())
    }))
    .unwrap();
    assert!(pool.shutdown());
    run_until_joined(&mut pool, &mut jobs);
    assert!(*marker.borrow());
    assert_eq!(pool.job_status(0), JobStatus::Done(false));
    assert_eq!(pool.job_status(1), JobStatus::Done(true));
}

#[test]
fn failed_job_frees_its_worker_for_the_next() {
    let mut pool = Pool::new(1).unwrap();
    let mut jobs: Vec<Option<Job>> = Vec::new();
    let marker = Rc::new(RefCell::new(false));
    submit(&mut pool, &mut jobs, Box::new(|| Err(String::from("bad input")))).unwrap();
    let m = marker.clone();
    submit(&mut pool, &mut jobs, Box::new(move || {
        *m.borrow_mut() = true;
        Ok(())
    }))
    .unwrap();
    assert!(pool.shutdown());
    run_until_joined(&mut pool, &mut jobs);
    assert!(*marker.borrow());
}

#[test]
fn second_shutdown_is_a_no_op() {
    let mut pool = Pool::new(2).unwrap();
    let mut jobs: Vec<Option<Job>> = Vec::new();
    assert!(pool.shutdown());
    run_until_joined(&mut pool, &mut jobs);
    assert!(!pool.shutdown());
    assert!(!pool.is_open());
    assert!(pool.is_joined());
    assert_eq!(pool.execute(), Err(PoolError::Submission));
}

#[test]
fn worker_takes_oldest_job_and_stops_when_drained() {
    let mut p = Pool::new(2).unwrap();
    assert_eq!(p.take(0), Receive::Wait);
    assert_eq!(p.execute(), Ok(0));
    assert_eq!(p.execute(), Ok(1));
    assert_eq!(p.take(1), Receive::Job(0));
    assert_eq!(p.worker_state(1), WorkerState::Running(0));
    assert_eq!(p.job_status(0), JobStatus::Running(1));
    assert_eq!(p.take(0), Receive::Job(1));
    assert_eq!(p.job_status(1), JobStatus::Running(0));
    assert_eq!(p.finish(1, false), 0);
    assert_eq!(p.worker_state(1), WorkerState::Idle);
    assert_eq!(p.take(1), Receive::Wait);
    assert!(p.shutdown());
    assert_eq!(p.take(1), Receive::EndOfStream);
    assert_eq!(p.worker_state(1), WorkerState::Stopped);
    assert!(!p.is_joined());
    assert_eq!(p.finish(0, true), 1);
    assert_eq!(p.take(0), Receive::EndOfStream);
    assert!(p.is_joined());
    assert_eq!(p.job_status(0), JobStatus::Done(false));
    assert_eq!(p.job_status(1), JobStatus::Done(true));
}

#[test]
fn queued_jobs_still_run_after_shutdown() {
    let mut p = Pool::new(1).unwrap();
    assert_eq!(p.execute(), Ok(0));
    assert!(p.shutdown());
    assert_eq!(p.take(0), Receive::Job(0));
    assert_eq!(p.finish(0, true), 0);
    assert_eq!(p.take(0), Receive::EndOfStream);
    assert!(p.is_joined());
}

#[test]
fn lost_worker_counts_as_degraded() {
    let mut p = Pool::new(3).unwrap();
    assert_eq!(p.degraded_workers(), 0);
    assert_eq!(p.execute(), Ok(0));
    assert_eq!(p.take(2), Receive::Job(0));
    assert_eq!(p.abandon(2), 0);
    assert_eq!(p.worker_state(2), WorkerState::Terminated);
    assert_eq!(p.job_status(0), JobStatus::Done(false));
    assert_eq!(p.degraded_workers(), 1);
    assert!(p.shutdown());
    assert_eq!(p.take(0), Receive::EndOfStream);
    assert_eq!(p.take(1), Receive::EndOfStream);
    assert!(p.is_joined());
}
