use vstd::prelude::*;

verus! {

use core::cmp::Ordering;

/// A schedulable unit of work.
///
/// The pool never holds the work's callable itself: a job carries a `task`
/// handle that the embedding runtime resolves to the callable exactly once,
/// when the job is dispatched. The handle doubles as the job's marker in the
/// pool's completion log. Scheduling moves handles only, so no policy can
/// duplicate or discard the work a handle stands for.
pub struct Job {
    /// Scheduling priority; a higher value is scheduled first.
    pub priority: usize,
    /// Handle to the job's callable, and its marker in the completion log.
    pub task: u64,
}

impl PartialEq for Job {
    /// Jobs compare by priority alone, as the scheduling order does.
    fn eq(&self, other: &Self) -> bool {
        self.priority == other.priority
    }
}

impl vstd::std_specs::cmp::PartialEqSpecImpl for Job {
    open spec fn obeys_eq_spec() -> bool {
        true
    }

    open spec fn eq_spec(&self, other: &Self) -> bool {
        self.priority == other.priority
    }
}

impl Eq for Job {}

impl PartialOrd for Job {
    /// Descending by priority: the job with the higher priority orders first.
    fn partial_cmp(&self, other: &Self) -> Option<Ordering> {
        if other.priority < self.priority {
            Some(Ordering::Less)
        } else if other.priority == self.priority {
            Some(Ordering::Equal)
        } else {
            Some(Ordering::Greater)
        }
    }
}

impl vstd::std_specs::cmp::PartialOrdSpecImpl for Job {
    open spec fn obeys_partial_cmp_spec() -> bool {
        true
    }

    open spec fn partial_cmp_spec(&self, other: &Self) -> Option<Ordering> {
        if other.priority < self.priority {
            Some(Ordering::Less)
        } else if other.priority == self.priority {
            Some(Ordering::Equal)
        } else {
            Some(Ordering::Greater)
        }
    }
}

/// Index `i` holds the first job of maximal priority in `queue`.
pub open spec fn is_first_of_max_priority(queue: Seq<Job>, i: int) -> bool {
    &&& 0 <= i < queue.len()
    &&& forall|j: int| 0 <= j < queue.len() ==> #[trigger] queue[j].priority <= queue[i].priority
    &&& forall|j: int| 0 <= j < i ==> #[trigger] queue[j].priority < queue[i].priority
}

/// Policy that picks which queued job runs next.
///
/// `schedule` only selects: it returns the position of the chosen job in the
/// queue it was shown, and the caller removes that job and hands it to a
/// worker. Selecting by position keeps the jobs themselves out of the
/// policy's hands.
pub trait SchedulingStrategy: Sized {
    /// What a call to `schedule` did: relates the policy state before and
    /// after the call to the choice returned for the queue that was shown.
    spec fn schedule_post(pre: Self, queue: Seq<Job>, post: Self, choice: Option<usize>) -> bool;

    /// Picks the position of the next job to run in `task_queue`, or `None`
    /// when the queue is empty.
    fn schedule(&mut self, task_queue: &Vec<Job>) -> (choice: Option<usize>)
        ensures
            Self::schedule_post(*old(self), task_queue@, *final(self), choice),
            choice is Some <==> task_queue@.len() > 0,
            choice matches Some(i) ==> i < task_queue@.len(),
    ;
}

/// Selects the queued job with the greatest priority; ties go to the first
/// maximal job in queue order.
pub struct PriorityScheduling;

impl SchedulingStrategy for PriorityScheduling {
    open spec fn schedule_post(
        pre: Self,
        queue: Seq<Job>,
        post: Self,
        choice: Option<usize>,
    ) -> bool {
        &&& post == pre
        &&& match choice {
            Some(i) => is_first_of_max_priority(queue, i as int),
            None => queue.len() == 0,
        }
    }

    fn schedule(&mut self, task_queue: &Vec<Job>) -> (choice: Option<usize>) {
        if task_queue.len() == 0 {
            return None;
        }
        let mut best: usize = 0;
        let mut k: usize = 1;
        while k < task_queue.len()
            invariant
                0 < k <= task_queue@.len(),
                best < k,
                forall|j: int|
                    0 <= j < k ==> #[trigger] task_queue@[j].priority
                        <= task_queue@[best as int].priority,
                forall|j: int|
                    0 <= j < best ==> #[trigger] task_queue@[j].priority
                        < task_queue@[best as int].priority,
            decreases task_queue@.len() - k,
        {
            if task_queue[k].priority > task_queue[best].priority {
                best = k;
            }
            k = k + 1;
        }
        Some(best)
    }
}

/// Cycles through the queue it is shown: picks the job under its cursor and
/// advances the cursor by one, wrapping around the queue's length.
pub struct RoundRobinScheduling {
    /// Position of the next job to pick. It may be stale with respect to the
    /// queue `schedule` is shown next; `schedule` re-wraps it, so it never
    /// indexes out of bounds.
    pub current_index: usize,
}

impl RoundRobinScheduling {
    pub fn new() -> (s: Self)
        ensures
            s.current_index == 0,
    {
        RoundRobinScheduling { current_index: 0 }
    }

    /// Re-aims the cursor after the caller has removed the job at position
    /// `chosen`, leaving `remaining` jobs, the ones after `chosen` shifted
    /// down by one: the cursor lands on the job that cyclically followed the
    /// removed one.
    pub fn acknowledge_removal(&mut self, chosen: usize, remaining: usize)
        ensures
            final(self).current_index == if chosen < remaining {
                chosen as int
            } else {
                0
            },
    {
        if chosen < remaining {
            self.current_index = chosen;
        } else {
            self.current_index = 0;
        }
    }
}

impl SchedulingStrategy for RoundRobinScheduling {
    open spec fn schedule_post(
        pre: Self,
        queue: Seq<Job>,
        post: Self,
        choice: Option<usize>,
    ) -> bool {
        if queue.len() == 0 {
            &&& post == pre
            &&& choice is None
        } else {
            let picked = pre.current_index as int % queue.len() as int;
            &&& choice == Some(picked as usize)
            &&& post.current_index == (picked + 1) % queue.len() as int
        }
    }

    fn schedule(&mut self, task_queue: &Vec<Job>) -> (choice: Option<usize>) {
        let len = task_queue.len();
        if len == 0 {
            None
        } else {
            let picked = self.current_index % len;
            self.current_index = (picked + 1) % len;
            Some(picked)
        }
    }
}

} // verus!
