use threadpooler_r::monitoring::{LoadAdvice, Monitoring};
use threadpooler_r::thread_pool::{DEFAULT_HIGH_WATERMARK, DEFAULT_LOW_WATERMARK};
use threadpooler_r::worker::{Worker, WorkerState};

#[test]
fn task_events_are_recorded_in_order() {
    let mut monitoring = Monitoring::new();
    monitoring.log_task_start("alpha");
    monitoring.log_task_start("beta");
    monitoring.log_task_complete("alpha");
    assert_eq!(monitoring.started, vec!["alpha".to_string(), "beta".to_string()]);
    assert_eq!(monitoring.completed, vec!["alpha".to_string()]);
}

#[test]
fn load_advice_follows_the_sampled_percentage() {
    let (percent, advice) = Monitoring::monitor_system_load();
    let expected = if percent > 100 {
        LoadAdvice::Steady
    } else if percent > DEFAULT_HIGH_WATERMARK {
        LoadAdvice::AddWorkers
    } else if percent < DEFAULT_LOW_WATERMARK {
        LoadAdvice::ReduceWorkers
    } else {
        LoadAdvice::Steady
    };
    assert_eq!(advice, expected);
}

#[test]
fn worker_survives_a_faulting_job() {
    // The failure boundary returns a worker to its loop whether or not the
    // job faulted: the same worker can pick up the next job.
    let mut worker = Worker::new(4);
    assert_eq!(worker.state, WorkerState::Idle);
    worker.begin_job();
    assert_eq!(worker.state, WorkerState::Executing);
    worker.finish_job(true);
    assert_eq!(worker.state, WorkerState::Idle);
    worker.begin_job();
    worker.finish_job(false);
    assert_eq!(worker.state, WorkerState::Idle);
}

#[test]
fn worker_terminates_on_disconnect_and_joins_once() {
    let mut worker = Worker::new(0);
    worker.observe_disconnect();
    assert_eq!(worker.state, WorkerState::Terminated);
    assert!(!worker.joined);
    worker.join();
    assert!(worker.joined);
    worker.join();
    assert!(worker.joined);
    assert_eq!(worker.id, 0);
}
