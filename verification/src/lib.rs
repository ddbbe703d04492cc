//! A bounded worker pool: jobs are submitted to a shared queue, picked by a
//! pluggable scheduling policy, executed by workers inside a failure
//! boundary, and accounted for in a completion log. The pool can be resized
//! while it runs, driven by observed CPU load, and shut down gracefully.

pub mod monitoring;
pub mod scheduling;
pub mod thread_pool;
pub mod worker;
