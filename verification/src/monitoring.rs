use vstd::prelude::*;

verus! {

use crate::thread_pool::{DEFAULT_HIGH_WATERMARK, DEFAULT_LOW_WATERMARK};

/// What an observed CPU load suggests about the pool's size.
#[derive(Clone, Copy, PartialEq, Eq, Structural, Debug)]
pub enum LoadAdvice {
    /// The load is above the high watermark: consider adding workers.
    AddWorkers,
    /// The load is below the low watermark: consider reducing workers.
    ReduceWorkers,
    /// The load is between the watermarks, or the sample is out of range:
    /// leave the pool as it is.
    Steady,
}

/// The advice the default watermarks give for a load sample of `percent`.
/// A sample over 100 is out of range and yields no advice.
pub open spec fn advice_for(percent: u32) -> LoadAdvice {
    if percent > 100 {
        LoadAdvice::Steady
    } else if percent > DEFAULT_HIGH_WATERMARK {
        LoadAdvice::AddWorkers
    } else if percent < DEFAULT_LOW_WATERMARK {
        LoadAdvice::ReduceWorkers
    } else {
        LoadAdvice::Steady
    }
}

/// Relies on `sysinfo::System::global_cpu_usage`, after `System::new_all`
/// and `refresh_cpu_usage`: the recent global CPU utilization as a
/// percentage, truncated to an integer. Nothing is assumed of the value —
/// it depends on the machine's state at the moment of the call, and an
/// out-of-range reading is the caller's to reject.
#[verifier::external_body]
pub(crate) fn sample_cpu_percent() -> u32 {
    let mut sys = sysinfo::System::new_all();
    sys.refresh_cpu_usage();
    sys.global_cpu_usage() as u32
}

/// The pool's structured log: worker and job events are recorded here, as
/// plain entries a caller can inspect, instead of going to a process-wide
/// logger. Informational only — no functional contract of the pool reads
/// these entries back.
pub struct Monitoring {
    /// Names of the tasks whose start was logged, in logging order.
    pub started: Vec<String>,
    /// Names of the tasks whose completion was logged, in logging order.
    pub completed: Vec<String>,
}

impl Monitoring {
    /// The names in `log`, as character sequences, in logging order.
    pub open spec fn names(log: Seq<String>) -> Seq<Seq<char>> {
        log.map_values(|name: String| name@)
    }

    /// An empty log sink.
    pub fn new() -> (monitoring: Monitoring)
        ensures
            monitoring.started@ =~= Seq::<String>::empty(),
            monitoring.completed@ =~= Seq::<String>::empty(),
    {
        Monitoring { started: Vec::new(), completed: Vec::new() }
    }

    /// Records that the named task started.
    pub fn log_task_start(&mut self, task_name: &str)
        ensures
            Self::names(final(self).started@) == Self::names(old(self).started@).push(task_name@),
            final(self).completed@ == old(self).completed@,
    {
        self.started.push(task_name.to_owned());
        proof {
            assert(Self::names(self.started@) =~= Self::names(old(self).started@).push(
                task_name@,
            ));
        }
    }

    /// Records that the named task completed.
    pub fn log_task_complete(&mut self, task_name: &str)
        ensures
            Self::names(final(self).completed@) == Self::names(old(self).completed@).push(
                task_name@,
            ),
            final(self).started@ == old(self).started@,
    {
        self.completed.push(task_name.to_owned());
        proof {
            assert(Self::names(self.completed@) =~= Self::names(old(self).completed@).push(
                task_name@,
            ));
        }
    }

    /// Samples the current CPU load and classifies it against the default
    /// watermarks. Advisory only: the returned pair is the sampled
    /// percentage and the advice it yields; resizing is the pool's
    /// `monitor_system_load`.
    pub fn monitor_system_load() -> (observed: (u32, LoadAdvice))
        ensures
            observed.1 == advice_for(observed.0),
    {
        let percent = sample_cpu_percent();
        let advice = if percent > 100 {
            LoadAdvice::Steady
        } else if percent > DEFAULT_HIGH_WATERMARK {
            LoadAdvice::AddWorkers
        } else if percent < DEFAULT_LOW_WATERMARK {
            LoadAdvice::ReduceWorkers
        } else {
            LoadAdvice::Steady
        };
        (percent, advice)
    }
}

} // verus!
