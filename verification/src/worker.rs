use vstd::prelude::*;

verus! {

/// Lifecycle of a worker's thread of execution.
#[derive(Clone, Copy, PartialEq, Eq, Structural, Debug)]
pub enum WorkerState {
    /// Blocked waiting for the next job.
    Idle,
    /// Running a job's callable inside the failure boundary.
    Executing,
    /// The thread has returned: the queue disconnected or a stop signal was
    /// observed. The sole orderly way out of the loop.
    Terminated,
}

/// One worker of the pool: an identity, the lifecycle state of its thread of
/// execution, and whether that thread has been reaped.
///
/// The struct tracks the thread's observable lifecycle; the thread itself is
/// owned by the embedding runtime, which drives these transitions as the
/// thread moves through its receive-execute loop.
#[derive(Clone, Copy, PartialEq, Eq, Structural, Debug)]
pub struct Worker {
    /// Identity, unique within the pool for this worker's lifetime.
    pub id: usize,
    /// Where the worker's thread stands in its lifecycle.
    pub state: WorkerState,
    /// Whether the thread has been joined; joining happens at most once.
    pub joined: bool,
}

impl Worker {
    /// A freshly spawned worker: immediately idle, waiting for work.
    pub fn new(id: usize) -> (w: Worker)
        ensures
            w == (Worker { id, state: WorkerState::Idle, joined: false }),
    {
        Worker { id, state: WorkerState::Idle, joined: false }
    }

    /// The worker has pulled a job from the queue and starts running it.
    pub fn begin_job(&mut self)
        requires
            old(self).state is Idle,
        ensures
            *final(self) == (Worker { state: WorkerState::Executing, ..*old(self) }),
    {
        self.state = WorkerState::Executing;
    }

    /// The job's callable finished, normally or by faulting. Either way the
    /// failure boundary returns the worker to its loop: a faulting job costs
    /// the pool nothing but that one job, never the worker.
    pub fn finish_job(&mut self, faulted: bool)
        requires
            old(self).state is Executing,
        ensures
            *final(self) == (Worker { state: WorkerState::Idle, ..*old(self) }),
    {
        let _ = faulted;
        self.state = WorkerState::Idle;
    }

    /// The worker's receive attempt failed because the queue disconnected:
    /// the orderly shutdown signal. The thread leaves its loop and returns.
    pub fn observe_disconnect(&mut self)
        requires
            old(self).state is Idle,
        ensures
            *final(self) == (Worker { state: WorkerState::Terminated, ..*old(self) }),
    {
        self.state = WorkerState::Terminated;
    }

    /// Reaps the worker's thread once it has returned. Joining is at most
    /// once: on a worker already joined this is a no-op.
    pub fn join(&mut self)
        requires
            old(self).state is Terminated,
        ensures
            *final(self) == (Worker { joined: true, ..*old(self) }),
    {
        self.joined = true;
    }
}

} // verus!
