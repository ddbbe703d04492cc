use threadpooler_r::scheduling::{Job, RoundRobinScheduling};
use threadpooler_r::thread_pool::{
    PoolError, PoolStrategy, ResizeAction, ThreadPool, DEFAULT_HIGH_WATERMARK,
    DEFAULT_LOW_WATERMARK,
};
use threadpooler_r::worker::WorkerState;

fn submit_markers(pool: &mut ThreadPool, markers: &[u64]) {
    for &marker in markers {
        assert_eq!(pool.submit_task(Job { priority: 0, task: marker }), Ok(()));
    }
}

fn completed_markers_of(pool: &ThreadPool) -> Vec<u64> {
    pool.completed.iter().map(|record| record.marker).collect()
}

#[test]
fn every_marker_completes_exactly_once() {
    // Unique markers in, each observed exactly once in the completion log
    // after shutdown: no loss, no duplication.
    for workers in 1..4usize {
        let mut pool = ThreadPool::new(workers, PoolStrategy::Fifo);
        let markers: Vec<u64> = (100..108).collect();
        submit_markers(&mut pool, &markers);
        pool.shutdown();
        let mut seen = completed_markers_of(&pool);
        seen.sort();
        assert_eq!(seen, markers);
    }
}

#[test]
fn round_trip_yields_exactly_the_submitted_identities() {
    let mut pool = ThreadPool::new(2, PoolStrategy::Fifo);
    submit_markers(&mut pool, &[7, 3, 9]);
    pool.shutdown();
    let mut seen = completed_markers_of(&pool);
    seen.sort();
    assert_eq!(seen, vec![3, 7, 9]);
}

#[test]
fn round_robin_single_worker_runs_in_submission_order() {
    // One worker, four jobs submitted in order: round robin degenerates to
    // ordered, first-in-first-out execution.
    let mut pool = ThreadPool::new(1, PoolStrategy::RoundRobin(RoundRobinScheduling::new()));
    submit_markers(&mut pool, &[1, 2, 3, 4]);
    pool.shutdown();
    assert_eq!(completed_markers_of(&pool), vec![1, 2, 3, 4]);
}

#[test]
fn priority_pool_dispatches_highest_first() {
    let mut pool = ThreadPool::new(1, PoolStrategy::Priority(threadpooler_r::scheduling::PriorityScheduling));
    assert_eq!(pool.submit_task(Job { priority: 1, task: 10 }), Ok(()));
    assert_eq!(pool.submit_task(Job { priority: 5, task: 11 }), Ok(()));
    assert_eq!(pool.submit_task(Job { priority: 3, task: 12 }), Ok(()));
    let first = pool.dispatch_next().unwrap();
    assert_eq!(first.priority, 5);
    assert_eq!(first.task, 11);
    pool.complete_task(first, false);
    let second = pool.dispatch_next().unwrap();
    assert_eq!(second.priority, 3);
    pool.complete_task(second, false);
    let third = pool.dispatch_next().unwrap();
    assert_eq!(third.priority, 1);
    pool.complete_task(third, false);
    assert!(pool.dispatch_next().is_none());
}

#[test]
fn priority_pool_shutdown_drains_highest_first() {
    let mut pool = ThreadPool::new(
        2,
        PoolStrategy::Priority(threadpooler_r::scheduling::PriorityScheduling),
    );
    assert_eq!(pool.submit_task(Job { priority: 1, task: 10 }), Ok(()));
    assert_eq!(pool.submit_task(Job { priority: 5, task: 11 }), Ok(()));
    assert_eq!(pool.submit_task(Job { priority: 3, task: 12 }), Ok(()));
    pool.shutdown();
    assert_eq!(completed_markers_of(&pool), vec![11, 12, 10]);
}

#[test]
fn thresholds_are_overridable() {
    let mut pool = ThreadPool::new(2, PoolStrategy::Fifo);
    pool.set_thresholds(90, 10);
    assert_eq!(pool.high_watermark, 90);
    assert_eq!(pool.low_watermark, 10);
    let before = pool.workers.len();
    let (percent, action) = pool.monitor_system_load();
    match action {
        ResizeAction::AddedWorker => {
            assert!(percent > 90 && percent <= 100);
            assert_eq!(pool.workers.len(), before + 1);
        }
        ResizeAction::RemovedWorker => {
            assert!(percent < 10);
            assert_eq!(pool.workers.len(), before - 1);
        }
        ResizeAction::Unchanged => {
            assert!(percent > 100 || (10 <= percent && percent <= 90));
            assert_eq!(pool.workers.len(), before);
        }
    }
}

#[test]
fn a_faulting_job_does_not_block_later_jobs() {
    // A job that faults inside the failure boundary is logged as faulted
    // and costs the pool nothing else: the next job on the same single
    // worker still runs to completion.
    let mut pool = ThreadPool::new(1, PoolStrategy::Fifo);
    submit_markers(&mut pool, &[21, 22]);
    let faulty = pool.dispatch_next().unwrap();
    pool.complete_task(faulty, true);
    let normal = pool.dispatch_next().unwrap();
    pool.complete_task(normal, false);
    assert_eq!(pool.completed.len(), 2);
    assert_eq!(pool.completed[0].marker, 21);
    assert!(pool.completed[0].faulted);
    assert_eq!(pool.completed[1].marker, 22);
    assert!(!pool.completed[1].faulted);
    assert!(pool.accepting);
}

#[test]
fn remove_worker_refuses_to_empty_the_pool() {
    let mut pool = ThreadPool::new(1, PoolStrategy::Fifo);
    assert_eq!(pool.remove_worker(), Err(PoolError::LastWorker));
    assert_eq!(pool.workers.len(), 1);
}

#[test]
fn remove_worker_pops_the_most_recent() {
    let mut pool = ThreadPool::new(3, PoolStrategy::Fifo);
    assert_eq!(pool.remove_worker(), Ok(()));
    assert_eq!(pool.workers.len(), 2);
    assert_eq!(pool.workers[0].id, 0);
    assert_eq!(pool.workers[1].id, 1);
}

#[test]
fn add_worker_then_submissions_all_complete() {
    let mut pool = ThreadPool::new(1, PoolStrategy::Fifo);
    pool.add_worker();
    assert_eq!(pool.workers.len(), 2);
    assert_eq!(pool.workers[1].id, 1);
    let markers: Vec<u64> = (0..32).collect();
    submit_markers(&mut pool, &markers);
    pool.shutdown();
    assert_eq!(pool.completed.len(), 32);
    let mut seen = completed_markers_of(&pool);
    seen.sort();
    assert_eq!(seen, markers);
}

#[test]
fn submit_after_shutdown_fails_and_logs_nothing() {
    let mut pool = ThreadPool::new(2, PoolStrategy::Fifo);
    submit_markers(&mut pool, &[5]);
    pool.shutdown();
    let log_len = pool.completed.len();
    assert_eq!(
        pool.submit_task(Job { priority: 0, task: 6 }),
        Err(PoolError::PoolClosed)
    );
    assert_eq!(pool.completed.len(), log_len);
    assert_eq!(pool.queue.len(), 0);
}

#[test]
fn shutdown_terminates_and_joins_every_worker() {
    let mut pool = ThreadPool::new(3, PoolStrategy::Fifo);
    pool.shutdown();
    assert!(!pool.accepting);
    assert_eq!(pool.workers.len(), 3);
    for worker in pool.workers.iter() {
        assert_eq!(worker.state, WorkerState::Terminated);
        assert!(worker.joined);
    }
}

#[test]
fn new_clamps_worker_count_up_to_one() {
    let pool = ThreadPool::new(0, PoolStrategy::Fifo);
    assert_eq!(pool.workers.len(), 1);
    assert!(pool.accepting);
    assert_eq!(pool.high_watermark, DEFAULT_HIGH_WATERMARK);
    assert_eq!(pool.low_watermark, DEFAULT_LOW_WATERMARK);
}

#[test]
fn monitor_system_load_acts_as_the_watermarks_prescribe() {
    let mut pool = ThreadPool::new(2, PoolStrategy::Fifo);
    let before = pool.workers.len();
    let (percent, action) = pool.monitor_system_load();
    match action {
        ResizeAction::AddedWorker => {
            assert!(percent > pool.high_watermark && percent <= 100);
            assert_eq!(pool.workers.len(), before + 1);
        }
        ResizeAction::RemovedWorker => {
            assert!(percent < pool.low_watermark);
            assert_eq!(pool.workers.len(), before - 1);
        }
        ResizeAction::Unchanged => {
            assert!(
                percent > 100
                    || (percent <= pool.high_watermark && percent >= pool.low_watermark)
            );
            assert_eq!(pool.workers.len(), before);
        }
    }
}

#[test]
fn monitor_never_removes_the_last_worker() {
    let mut pool = ThreadPool::new(1, PoolStrategy::Fifo);
    // Force the low branch for any in-range sample: everything below 101
    // counts as low load. Shrinking must still be refused at one worker.
    pool.set_thresholds(100, 101);
    let (_, action) = pool.monitor_system_load();
    assert_ne!(action, ResizeAction::RemovedWorker);
    assert_eq!(pool.workers.len(), 1);
}

#[test]
fn monitor_after_shutdown_changes_nothing() {
    let mut pool = ThreadPool::new(2, PoolStrategy::Fifo);
    pool.shutdown();
    let (_, action) = pool.monitor_system_load();
    assert_eq!(action, ResizeAction::Unchanged);
    assert_eq!(pool.workers.len(), 2);
}
