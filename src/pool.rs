use vstd::prelude::*;
use threadpool::ThreadPool;

verus! {

/// The number of workers that serve connections concurrently.
pub const WORKER_COUNT: usize = 4;

/// A pool of worker threads fed from one shared queue of jobs.
#[verifier::external_type_specification]
#[verifier::external_body]
pub struct ExThreadPool(ThreadPool);

/// Relies on threadpool's `ThreadPool::new`, which spawns `num_threads`
/// workers and panics when `num_threads` is zero.
pub assume_specification[ ThreadPool::new ](num_threads: usize) -> ThreadPool
    requires
        num_threads > 0,
;

/// The pool that connections are handed to: `WORKER_COUNT` workers, so that
/// a slow request occupies one worker while the others go on serving.
pub fn worker_pool() -> ThreadPool {
    ThreadPool::new(WORKER_COUNT)
}

} // verus!
