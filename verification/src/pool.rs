use threadpool::ThreadPool;
use vstd::prelude::*;

verus! {

#[verifier::external_type_specification]
#[verifier::external_body]
pub struct ExThreadPool(ThreadPool);

/// `ThreadPool::new`: a pool that runs up to `workers` jobs at a time. The
/// outside function panics when asked for no worker, so that is left out.
/// Nothing is claimed of the pool.
#[verifier::external_body]
pub(crate) fn start_pool(workers: usize) -> (pool: ThreadPool)
    requires
        workers >= 1,
{
    ThreadPool::new(workers)
}

/// `ThreadPool::join`: waits until the pool has no job left, queued or
/// running. It comes back only once every job has ended, and is not to be
/// called from one of the pool's own jobs. Nothing is claimed of its effect.
#[verifier::external_body]
pub(crate) fn drain_pool(pool: &ThreadPool) {
    pool.join()
}

} // verus!
