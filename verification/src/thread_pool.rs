use vstd::prelude::*;

verus! {

use vstd::multiset::Multiset;
use crate::scheduling::{
    is_first_of_max_priority, Job, PriorityScheduling, RoundRobinScheduling, SchedulingStrategy,
};
use crate::worker::{Worker, WorkerState};

/// Load percentage above which the pool grows by one worker.
pub const DEFAULT_HIGH_WATERMARK: u32 = 80;

/// Load percentage below which the pool shrinks by one worker.
pub const DEFAULT_LOW_WATERMARK: u32 = 30;

/// The scheduling policy a pool is constructed with. A pool may also run
/// with no policy at all: plain first-in-first-out dispatch.
pub enum PoolStrategy {
    /// No policy: jobs are dispatched in submission order.
    Fifo,
    /// Highest priority first.
    Priority(PriorityScheduling),
    /// Cyclic selection.
    RoundRobin(RoundRobinScheduling),
}

/// A structural failure of a pool operation, surfaced to the caller rather
/// than panicking.
#[derive(Clone, Copy, PartialEq, Eq, Structural, Debug)]
pub enum PoolError {
    /// The pool has shut down: the submission side is closed.
    PoolClosed,
    /// Refused: removing this worker would leave the pool empty.
    LastWorker,
}

/// One entry of the completion log: a job that a worker finished running.
#[derive(Clone, Copy, PartialEq, Eq, Structural, Debug)]
pub struct CompletionRecord {
    /// The finished job's marker (its `task` handle).
    pub marker: u64,
    /// Whether the job's callable faulted inside the failure boundary.
    pub faulted: bool,
}

/// The markers of a queue of jobs, in queue order.
pub open spec fn queue_markers(queue: Seq<Job>) -> Seq<u64> {
    queue.map_values(|job: Job| job.task)
}

/// The markers of a completion log, in completion order.
pub open spec fn completed_markers(log: Seq<CompletionRecord>) -> Seq<u64> {
    log.map_values(|record: CompletionRecord| record.marker)
}

/// The completion-log entry for a job that ran without faulting.
pub open spec fn clean_record(job: Job) -> CompletionRecord {
    CompletionRecord { marker: job.task, faulted: false }
}

/// What a resize pass did to the pool.
#[derive(Clone, Copy, PartialEq, Eq, Structural, Debug)]
pub enum ResizeAction {
    /// The load was high: one worker was added.
    AddedWorker,
    /// The load was low: the most recent worker was retired.
    RemovedWorker,
    /// No resize signal: the pool was left as it was.
    Unchanged,
}

/// The position the pool's policy picks from a non-empty `queue`: the front
/// for plain FIFO dispatch, the first maximal priority for priority
/// scheduling, the re-wrapped cursor for round robin.
pub open spec fn spec_selected(strategy: PoolStrategy, queue: Seq<Job>) -> int {
    match strategy {
        PoolStrategy::Fifo => 0,
        PoolStrategy::Priority(_) => choose|i: int| is_first_of_max_priority(queue, i),
        PoolStrategy::RoundRobin(rr) => rr.current_index as int % queue.len() as int,
    }
}

/// `spec_selected`, clamped into the queue's bounds. The clamp never moves
/// the choice for a non-empty queue — a first maximal position always
/// exists — it only keeps the definition total.
pub open spec fn selected_index(strategy: PoolStrategy, queue: Seq<Job>) -> int {
    let picked = spec_selected(strategy, queue);
    if 0 <= picked < queue.len() {
        picked
    } else {
        0
    }
}

/// The policy state after it picked `selected_index(strategy, queue)` and
/// the caller removed that job: a round-robin cursor is re-aimed at the job
/// that cyclically followed the removed one, the other policies are
/// stateless.
pub open spec fn strategy_after(strategy: PoolStrategy, queue: Seq<Job>) -> PoolStrategy {
    match strategy {
        PoolStrategy::Fifo => PoolStrategy::Fifo,
        PoolStrategy::Priority(policy) => PoolStrategy::Priority(policy),
        PoolStrategy::RoundRobin(_) => PoolStrategy::RoundRobin(
            RoundRobinScheduling {
                current_index: if selected_index(strategy, queue) < queue.len() - 1 {
                    selected_index(strategy, queue) as usize
                } else {
                    0usize
                },
            },
        ),
    }
}

/// The completion-log entries a graceful shutdown appends while draining
/// `queue` under `strategy`: every remaining job, each exactly once, in the
/// order the policy dispatches them, each run without fault.
pub open spec fn drain_records(strategy: PoolStrategy, queue: Seq<Job>) -> Seq<CompletionRecord>
    decreases queue.len(),
{
    if queue.len() == 0 {
        Seq::empty()
    } else {
        let picked = selected_index(strategy, queue);
        seq![clean_record(queue[picked])] + drain_records(
            strategy_after(strategy, queue),
            queue.remove(picked),
        )
    }
}

/// The policy state a graceful shutdown leaves behind after draining
/// `queue` under `strategy`.
pub open spec fn drain_strategy(strategy: PoolStrategy, queue: Seq<Job>) -> PoolStrategy
    decreases queue.len(),
{
    if queue.len() == 0 {
        strategy
    } else {
        drain_strategy(
            strategy_after(strategy, queue),
            queue.remove(selected_index(strategy, queue)),
        )
    }
}

/// A pool of workers sharing one job queue.
///
/// Submitted jobs wait in `queue` until `dispatch_next` picks one by the
/// pool's scheduling policy and hands it out; the runtime reports the
/// outcome back through `complete_task`, which appends to the completion
/// log. The well-formedness invariant accounts for every submitted marker:
/// it is queued, in flight, or completed — nowhere else, and never twice.
pub struct ThreadPool {
    /// The pool's workers, in spawn order; position equals identity.
    pub workers: Vec<Worker>,
    /// Jobs submitted and not yet dispatched.
    pub queue: Vec<Job>,
    /// The scheduling policy selected at construction.
    pub strategy: PoolStrategy,
    /// Whether the submission side is still open. Shutdown closes it, once
    /// and for all.
    pub accepting: bool,
    /// Load percentage above which `monitor_system_load` adds a worker.
    pub high_watermark: u32,
    /// Load percentage below which `monitor_system_load` removes a worker.
    pub low_watermark: u32,
    /// Every job a worker finished, in the order the outcomes were reported.
    pub completed: Vec<CompletionRecord>,
    /// Every marker ever submitted, in submission order.
    pub submitted: Ghost<Seq<u64>>,
    /// Markers dispatched to a worker whose outcome is not yet reported.
    pub in_flight: Ghost<Multiset<u64>>,
}

impl ThreadPool {
    /// Well-formedness: the pool is never operational without a worker, a
    /// worker's position is its identity (so identities are unique), and
    /// the submitted markers are exactly the queued, in-flight and
    /// completed ones together.
    pub open spec fn wf(self) -> bool {
        &&& (self.accepting ==> self.workers@.len() >= 1)
        &&& forall|i: int|
            0 <= i < self.workers@.len() ==> (#[trigger] self.workers@[i]).id == i
        &&& self.submitted@.to_multiset() == queue_markers(self.queue@).to_multiset().add(
            self.in_flight@,
        ).add(completed_markers(self.completed@).to_multiset())
    }

    /// Builds a pool of `num_workers` workers (clamped up to one: a pool
    /// never starts empty) around an empty queue, with the given scheduling
    /// policy and the default resize watermarks.
    pub fn new(num_workers: usize, strategy: PoolStrategy) -> (pool: ThreadPool)
        ensures
            pool.wf(),
            pool.accepting,
            pool.workers@.len() == if num_workers == 0 {
                1usize
            } else {
                num_workers
            },
            forall|i: int|
                0 <= i < pool.workers@.len() ==> #[trigger] pool.workers@[i] == (Worker {
                    id: i as usize,
                    state: WorkerState::Idle,
                    joined: false,
                }),
            pool.queue@ =~= Seq::<Job>::empty(),
            pool.strategy == strategy,
            pool.high_watermark == DEFAULT_HIGH_WATERMARK,
            pool.low_watermark == DEFAULT_LOW_WATERMARK,
            pool.completed@ =~= Seq::<CompletionRecord>::empty(),
            pool.submitted@ =~= Seq::<u64>::empty(),
            pool.in_flight@ =~= Multiset::<u64>::empty(),
    {
        let count: usize = if num_workers == 0 {
            1
        } else {
            num_workers
        };
        let mut workers: Vec<Worker> = Vec::new();
        let mut id: usize = 0;
        while id < count
            invariant
                id <= count,
                workers@.len() == id,
                forall|i: int|
                    0 <= i < id ==> #[trigger] workers@[i] == (Worker {
                        id: i as usize,
                        state: WorkerState::Idle,
                        joined: false,
                    }),
            decreases count - id,
        {
            workers.push(Worker::new(id));
            id = id + 1;
        }
        let pool = ThreadPool {
            workers,
            queue: Vec::new(),
            strategy,
            accepting: true,
            high_watermark: DEFAULT_HIGH_WATERMARK,
            low_watermark: DEFAULT_LOW_WATERMARK,
            completed: Vec::new(),
            submitted: Ghost(Seq::empty()),
            in_flight: Ghost(Multiset::empty()),
        };
        proof {
            broadcast use vstd::seq_lib::group_to_multiset_ensures;

            assert(queue_markers(pool.queue@) =~= Seq::<u64>::empty());
            assert(completed_markers(pool.completed@) =~= Seq::<u64>::empty());
            assert(pool.submitted@.to_multiset() =~= queue_markers(
                pool.queue@,
            ).to_multiset().add(pool.in_flight@).add(
                completed_markers(pool.completed@).to_multiset(),
            ));
        }
        pool
    }

    /// Overrides the resize watermarks that `monitor_system_load` applies.
    pub fn set_thresholds(&mut self, high_watermark: u32, low_watermark: u32)
        ensures
            *final(self) == (ThreadPool { high_watermark, low_watermark, ..*old(self) }),
    {
        self.high_watermark = high_watermark;
        self.low_watermark = low_watermark;
    }

    /// Moves a job into the queue, where exactly one worker will eventually
    /// pick it up. Never blocks; on a pool that has shut down the submission
    /// fails and the pool is left untouched — never a silent drop.
    pub fn submit_task(&mut self, job: Job) -> (result: Result<(), PoolError>)
        requires
            old(self).wf(),
        ensures
            final(self).wf(),
            old(self).accepting ==> {
                &&& result == Result::<(), PoolError>::Ok(())
                &&& *final(self) == (ThreadPool {
                    queue: final(self).queue,
                    submitted: final(self).submitted,
                    ..*old(self)
                })
                &&& final(self).queue@ == old(self).queue@.push(job)
                &&& final(self).submitted@ == old(self).submitted@.push(job.task)
            },
            !old(self).accepting ==> {
                &&& result == Result::<(), PoolError>::Err(PoolError::PoolClosed)
                &&& *final(self) == *old(self)
            },
    {
        if !self.accepting {
            return Err(PoolError::PoolClosed);
        }
        self.queue.push(job);
        proof {
            self.submitted@ = self.submitted@.push(job.task);
        }
        proof {
            broadcast use vstd::seq_lib::group_to_multiset_ensures;
            broadcast use vstd::multiset::group_multiset_axioms;

            assert(queue_markers(self.queue@) =~= queue_markers(old(self).queue@).push(job.task));
            assert(self.submitted@.to_multiset() =~= old(self).submitted@.to_multiset().insert(
                job.task,
            ));
            assert(queue_markers(self.queue@).to_multiset() =~= queue_markers(
                old(self).queue@,
            ).to_multiset().insert(job.task));
            assert(self.submitted@.to_multiset() =~= queue_markers(self.queue@).to_multiset().add(
                self.in_flight@,
            ).add(completed_markers(self.completed@).to_multiset()));
        }
        Ok(())
    }

    /// Removes and returns the job the pool's policy picks, or `None` when
    /// the queue is empty. The policy only names a position; the queue hands
    /// the job over here, once, by position — it is never cloned. The job
    /// stays in flight until its outcome is reported through
    /// `complete_task`.
    pub fn dispatch_next(&mut self) -> (dispatched: Option<Job>)
        requires
            old(self).wf(),
        ensures
            final(self).wf(),
            old(self).queue@.len() == 0 ==> {
                &&& dispatched is None
                &&& *final(self) == *old(self)
            },
            old(self).queue@.len() > 0 ==> {
                let picked = selected_index(old(self).strategy, old(self).queue@);
                &&& dispatched == Some(old(self).queue@[picked])
                &&& final(self).queue@ == old(self).queue@.remove(picked)
                &&& final(self).strategy == strategy_after(old(self).strategy, old(self).queue@)
                &&& final(self).in_flight@ == old(self).in_flight@.insert(
                    old(self).queue@[picked].task,
                )
                &&& (old(self).strategy is Priority ==> is_first_of_max_priority(
                    old(self).queue@,
                    picked,
                ))
                &&& *final(self) == (ThreadPool {
                    queue: final(self).queue,
                    strategy: final(self).strategy,
                    in_flight: final(self).in_flight,
                    ..*old(self)
                })
            },
    {
        if self.queue.len() == 0 {
            return None;
        }
        let ghost pre = *self;
        let choice: usize;
        match &mut self.strategy {
            PoolStrategy::Fifo => {
                choice = 0;
            },
            PoolStrategy::Priority(policy) => {
                choice = policy.schedule(&self.queue).unwrap();
            },
            PoolStrategy::RoundRobin(policy) => {
                choice = policy.schedule(&self.queue).unwrap();
            },
        }
        proof {
            if pre.strategy is Priority {
                assert(is_first_of_max_priority(pre.queue@, choice as int));
                let chosen = choose|i: int| is_first_of_max_priority(pre.queue@, i);
                assert(is_first_of_max_priority(pre.queue@, chosen));
                if chosen < choice as int {
                    assert(pre.queue@[chosen].priority < pre.queue@[choice as int].priority);
                    assert(pre.queue@[choice as int].priority <= pre.queue@[chosen].priority);
                } else if chosen > choice as int {
                    assert(pre.queue@[choice as int].priority < pre.queue@[chosen].priority);
                    assert(pre.queue@[chosen].priority <= pre.queue@[choice as int].priority);
                }
            }
            assert(choice as int == selected_index(pre.strategy, pre.queue@));
        }
        let job = self.queue.remove(choice);
        match &mut self.strategy {
            PoolStrategy::RoundRobin(policy) => {
                let remaining = self.queue.len();
                policy.acknowledge_removal(choice, remaining);
            },
            _ => {},
        }
        proof {
            self.in_flight@ = self.in_flight@.insert(job.task);
        }
        proof {
            broadcast use vstd::seq_lib::group_to_multiset_ensures;
            broadcast use vstd::multiset::group_multiset_axioms;

            assert(queue_markers(self.queue@) =~= queue_markers(pre.queue@).remove(choice as int));
            assert(queue_markers(pre.queue@)[choice as int] == job.task);
            assert(self.submitted@.to_multiset() =~= queue_markers(self.queue@).to_multiset().add(
                self.in_flight@,
            ).add(completed_markers(self.completed@).to_multiset()));
            assert(self.strategy == strategy_after(pre.strategy, pre.queue@));
        }
        Some(job)
    }

    /// Records the outcome of a dispatched job: its worker ran the callable
    /// to the end, and `faulted` says whether the callable faulted inside
    /// the failure boundary. Either way the job is done — exactly once — and
    /// its marker moves from the in-flight set to the completion log; a
    /// fault costs the pool nothing beyond that one job.
    pub fn complete_task(&mut self, job: Job, faulted: bool)
        requires
            old(self).wf(),
            old(self).in_flight@.contains(job.task),
        ensures
            final(self).wf(),
            final(self).completed@ == old(self).completed@.push(
                CompletionRecord { marker: job.task, faulted },
            ),
            final(self).in_flight@ == old(self).in_flight@.remove(job.task),
            *final(self) == (ThreadPool {
                completed: final(self).completed,
                in_flight: final(self).in_flight,
                ..*old(self)
            }),
    {
        let record = CompletionRecord { marker: job.task, faulted };
        self.completed.push(record);
        proof {
            self.in_flight@ = self.in_flight@.remove(job.task);
        }
        proof {
            broadcast use vstd::seq_lib::group_to_multiset_ensures;
            broadcast use vstd::multiset::group_multiset_axioms;

            assert(completed_markers(self.completed@) =~= completed_markers(
                old(self).completed@,
            ).push(job.task));
            assert(self.submitted@.to_multiset() =~= queue_markers(self.queue@).to_multiset().add(
                self.in_flight@,
            ).add(completed_markers(self.completed@).to_multiset()));
        }
    }

    /// Spawns one more worker sharing the queue; it immediately competes
    /// for jobs. Safe alongside ongoing submission.
    pub fn add_worker(&mut self)
        requires
            old(self).wf(),
        ensures
            final(self).wf(),
            final(self).workers@ == old(self).workers@.push(
                Worker {
                    id: old(self).workers@.len() as usize,
                    state: WorkerState::Idle,
                    joined: false,
                },
            ),
            *final(self) == (ThreadPool { workers: final(self).workers, ..*old(self) }),
    {
        let id = self.workers.len();
        let worker = Worker::new(id);
        self.workers.push(worker);
    }

    /// Retires the most recently added worker: signals it to stop and joins
    /// its thread before dropping it, so the thread is fully gone when the
    /// call returns. Refused — the pool left untouched — when only one
    /// worker remains: the pool never drops below one.
    pub fn remove_worker(&mut self) -> (result: Result<(), PoolError>)
        requires
            old(self).wf(),
        ensures
            final(self).wf(),
            old(self).workers@.len() > 1 ==> {
                &&& result == Result::<(), PoolError>::Ok(())
                &&& final(self).workers@ == old(self).workers@.drop_last()
                &&& *final(self) == (ThreadPool { workers: final(self).workers, ..*old(self) })
            },
            old(self).workers@.len() <= 1 ==> {
                &&& result == Result::<(), PoolError>::Err(PoolError::LastWorker)
                &&& *final(self) == *old(self)
            },
    {
        if self.workers.len() <= 1 {
            return Err(PoolError::LastWorker);
        }
        let popped = self.workers.pop();
        match popped {
            Some(mut worker) => {
                // The stop signal ends the worker's loop wherever it stood;
                // the thread is joined before the worker value is dropped.
                worker.state = WorkerState::Terminated;
                worker.join();
            },
            None => {},
        }
        Ok(())
    }

    /// The resize action the watermarks prescribe for a load sample of
    /// `percent` on this pool: grow above the high watermark, shrink below
    /// the low one — never below one worker. An out-of-range sample, or a
    /// pool that has already shut down, yields no action rather than a
    /// failure.
    pub open spec fn resize_action(self, percent: u32) -> ResizeAction {
        if !self.accepting {
            ResizeAction::Unchanged
        } else if percent > 100 {
            ResizeAction::Unchanged
        } else if percent > self.high_watermark {
            ResizeAction::AddedWorker
        } else if percent < self.low_watermark && self.workers@.len() > 1 {
            ResizeAction::RemovedWorker
        } else {
            ResizeAction::Unchanged
        }
    }

    /// One explicit resize pass, not a background task — callers invoke it
    /// on their own cadence. Samples the CPU load and applies
    /// `resize_action`: the returned pair is the sampled percentage and
    /// what was done with it.
    pub fn monitor_system_load(&mut self) -> (outcome: (u32, ResizeAction))
        requires
            old(self).wf(),
        ensures
            final(self).wf(),
            outcome.1 == old(self).resize_action(outcome.0),
            outcome.1 is AddedWorker ==> {
                &&& final(self).workers@ == old(self).workers@.push(
                    Worker {
                        id: old(self).workers@.len() as usize,
                        state: WorkerState::Idle,
                        joined: false,
                    },
                )
                &&& *final(self) == (ThreadPool { workers: final(self).workers, ..*old(self) })
            },
            outcome.1 is RemovedWorker ==> {
                &&& final(self).workers@ == old(self).workers@.drop_last()
                &&& *final(self) == (ThreadPool { workers: final(self).workers, ..*old(self) })
            },
            outcome.1 is Unchanged ==> *final(self) == *old(self),
    {
        let percent = crate::monitoring::sample_cpu_percent();
        if !self.accepting {
            (percent, ResizeAction::Unchanged)
        } else if percent > 100 {
            (percent, ResizeAction::Unchanged)
        } else if percent > self.high_watermark {
            self.add_worker();
            (percent, ResizeAction::AddedWorker)
        } else if percent < self.low_watermark && self.workers.len() > 1 {
            let removed = self.remove_worker();
            let _ = removed;
            (percent, ResizeAction::RemovedWorker)
        } else {
            (percent, ResizeAction::Unchanged)
        }
    }

    /// Graceful shutdown, a one-way transition. Closes the submission side
    /// — every later `submit_task` fails — then drains the queue, running
    /// each remaining job exactly once in the policy's dispatch order, and
    /// finally joins every worker's thread. Safe to call on a pool that has
    /// already shut down: the drain finds nothing and the workers stay
    /// terminated.
    pub fn shutdown(&mut self)
        requires
            old(self).wf(),
            old(self).in_flight@ == Multiset::<u64>::empty(),
        ensures
            final(self).wf(),
            !final(self).accepting,
            final(self).queue@ == Seq::<Job>::empty(),
            final(self).completed@ == old(self).completed@ + drain_records(
                old(self).strategy,
                old(self).queue@,
            ),
            final(self).strategy == drain_strategy(old(self).strategy, old(self).queue@),
            final(self).workers@.len() == old(self).workers@.len(),
            forall|i: int|
                0 <= i < final(self).workers@.len() ==> #[trigger] final(self).workers@[i]
                    == (Worker {
                    id: old(self).workers@[i].id,
                    state: WorkerState::Terminated,
                    joined: true,
                }),
            final(self).submitted@ == old(self).submitted@,
            final(self).in_flight@ == old(self).in_flight@,
            final(self).high_watermark == old(self).high_watermark,
            final(self).low_watermark == old(self).low_watermark,
    {
        self.accepting = false;
        while self.queue.len() > 0
            invariant
                self.wf(),
                !self.accepting,
                self.in_flight@ == Multiset::<u64>::empty(),
                self.workers@ == old(self).workers@,
                self.submitted@ == old(self).submitted@,
                self.high_watermark == old(self).high_watermark,
                self.low_watermark == old(self).low_watermark,
                self.completed@ + drain_records(self.strategy, self.queue@) == old(
                    self,
                ).completed@ + drain_records(old(self).strategy, old(self).queue@),
                drain_strategy(self.strategy, self.queue@) == drain_strategy(
                    old(self).strategy,
                    old(self).queue@,
                ),
            decreases self.queue@.len(),
        {
            let ghost before = *self;
            let job = self.dispatch_next().unwrap();
            self.complete_task(job, false);
            proof {
                broadcast use vstd::multiset::group_multiset_axioms;

                let picked = selected_index(before.strategy, before.queue@);
                assert(self.in_flight@ =~= Multiset::<u64>::empty());
                assert(self.completed@ =~= before.completed@ + seq![clean_record(
                    before.queue@[picked],
                )]);
                assert(self.completed@ + drain_records(self.strategy, self.queue@)
                    =~= before.completed@ + drain_records(before.strategy, before.queue@));
            }
        }
        let ghost drained = *self;
        let mut terminated: Vec<Worker> = Vec::new();
        let mut i: usize = 0;
        while i < self.workers.len()
            invariant
                i <= self.workers@.len(),
                self.workers@ == drained.workers@,
                terminated@.len() == i,
                forall|k: int|
                    0 <= k < i ==> #[trigger] terminated@[k] == (Worker {
                        id: drained.workers@[k].id,
                        state: WorkerState::Terminated,
                        joined: true,
                    }),
            decreases self.workers@.len() - i,
        {
            let id = self.workers[i].id;
            terminated.push(Worker { id, state: WorkerState::Terminated, joined: true });
            i = i + 1;
        }
        self.workers = terminated;
    }
}

/// Round-robin dispatch with its cursor at the front behaves exactly like
/// plain FIFO dispatch on a queue that only drains: with a single worker,
/// jobs run in submission order.
pub proof fn lemma_drain_in_submission_order(strategy: PoolStrategy, queue: Seq<Job>)
    requires
        strategy is Fifo || (strategy matches PoolStrategy::RoundRobin(rr)
            && rr.current_index == 0),
    ensures
        drain_records(strategy, queue) == queue.map_values(|job: Job| clean_record(job)),
    decreases queue.len(),
{
    if queue.len() == 0 {
        assert(drain_records(strategy, queue) =~= queue.map_values(
            |job: Job| clean_record(job),
        ));
    } else {
        assert(selected_index(strategy, queue) == 0);
        lemma_drain_in_submission_order(strategy_after(strategy, queue), queue.remove(0));
        assert(queue.remove(0) =~= queue.drop_first());
        assert(drain_records(strategy, queue) =~= queue.map_values(
            |job: Job| clean_record(job),
        ));
    }
}

/// Round trip: once a pool has drained — nothing queued, nothing in flight,
/// as `shutdown` leaves it — the completion log holds exactly the submitted
/// markers: the same multiset, in some order.
pub proof fn lemma_drained_round_trip(pool: ThreadPool)
    requires
        pool.wf(),
        pool.queue@.len() == 0,
        pool.in_flight@ == Multiset::<u64>::empty(),
    ensures
        completed_markers(pool.completed@).to_multiset() == pool.submitted@.to_multiset(),
{
    broadcast use vstd::seq_lib::group_to_multiset_ensures;
    broadcast use vstd::multiset::group_multiset_axioms;

    assert(queue_markers(pool.queue@) =~= Seq::<u64>::empty());
    assert(queue_markers(pool.queue@).to_multiset() =~= Multiset::<u64>::empty());
    assert(pool.submitted@.to_multiset() =~= completed_markers(pool.completed@).to_multiset());
}

/// No loss, no duplication: once a pool has drained, a marker submitted
/// once — markers being unique across the submissions — stands in the
/// completion log exactly once, whatever the worker count or policy.
pub proof fn lemma_marker_completed_exactly_once(pool: ThreadPool, marker: u64)
    requires
        pool.wf(),
        pool.queue@.len() == 0,
        pool.in_flight@ == Multiset::<u64>::empty(),
        pool.submitted@.no_duplicates(),
        pool.submitted@.contains(marker),
    ensures
        completed_markers(pool.completed@).to_multiset().count(marker) == 1,
{
    broadcast use vstd::seq_lib::group_to_multiset_ensures;
    broadcast use vstd::multiset::group_multiset_axioms;

    lemma_drained_round_trip(pool);
    pool.submitted@.lemma_multiset_has_no_duplicates();
    assert(pool.submitted@.to_multiset().contains(marker));
}

} // verus!
