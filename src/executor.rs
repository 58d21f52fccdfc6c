use std::sync::Arc;
use vstd::prelude::*;

verus! {

#[verifier::external_type_specification]
#[verifier::external_body]
pub struct ExHandle(tokio::runtime::Handle);

#[verifier::external_type_specification]
#[verifier::external_body]
pub struct ExTryCurrentError(tokio::runtime::TryCurrentError);

#[verifier::external_type_specification]
#[verifier::external_body]
pub struct ExThreadPool(rayon::ThreadPool);

#[verifier::external_type_specification]
#[verifier::external_body]
pub struct ExThreadPoolBuildError(rayon::ThreadPoolBuildError);

/// Relies on tokio's `Handle::try_current`: a handle to the reactor running on
/// this thread, or an error when there is none; it never panics. Which of the
/// two comes back depends on the calling context, so nothing more is stated.
pub assume_specification[ tokio::runtime::Handle::try_current ]() -> Result<
    tokio::runtime::Handle,
    tokio::runtime::TryCurrentError,
>;

/// Relies on rayon's `ThreadPoolBuilder::new`, `num_threads` and `build`: a
/// pool of `threads` worker threads of its own, or the error that starting
/// them met. Whether building succeeds depends on the machine, so nothing more
/// is stated.
#[verifier::external_body]
fn build_pool(threads: usize) -> (r: Result<rayon::ThreadPool, rayon::ThreadPoolBuildError>) {
    rayon::ThreadPoolBuilder::new().num_threads(threads).build()
}

/// The number of compute workers of an executor's pool.
pub const WORKER_THREADS: usize = 8;

/// Why an executor could not be constructed. Both are configuration errors,
/// fatal at startup.
#[derive(Clone, Copy, Debug, PartialEq, Eq, Structural)]
pub enum ExecutorError {
    /// It was constructed outside a running reactor.
    NoReactor,
    /// The compute-worker pool could not be built.
    PoolBuild,
}

/// An executor for potentially blocking computations: it holds a handle to the
/// shared reactor, under which each poll step registers its I/O, and a
/// dedicated fixed-size compute-worker pool on which each poll step runs.
pub struct AsyncExecutor {
    io: tokio::runtime::Handle,
    cpu: Arc<rayon::ThreadPool>,
    workers: usize,
}

impl AsyncExecutor {
    pub closed spec fn reactor_spec(&self) -> tokio::runtime::Handle {
        self.io
    }

    pub closed spec fn pool_spec(&self) -> rayon::ThreadPool {
        *self.cpu
    }

    pub closed spec fn workers_spec(&self) -> usize {
        self.workers
    }

    /// Captures the reactor of the calling context and builds a dedicated pool
    /// of `WORKER_THREADS` compute workers. Outside a running reactor it fails
    /// with `NoReactor` and builds no pool.
    pub fn new() -> (r: Result<AsyncExecutor, ExecutorError>)
        ensures
            r matches Ok(e) ==> e.workers_spec() == WORKER_THREADS,
            r matches Err(err) ==> err == ExecutorError::NoReactor || err
                == ExecutorError::PoolBuild,
    {
        match AsyncExecutor::require_reactor(tokio::runtime::Handle::try_current()) {
            Err(e) => Err(e),
            Ok(io) => AsyncExecutor::from_parts(io, build_pool(WORKER_THREADS), WORKER_THREADS),
        }
    }

    /// Turns the lookup of the calling context's reactor into the handle, or
    /// into `NoReactor` exactly when there is none.
    pub fn require_reactor(
        io: Result<tokio::runtime::Handle, tokio::runtime::TryCurrentError>,
    ) -> (r: Result<tokio::runtime::Handle, ExecutorError>)
        ensures
            io is Err <==> r == Err::<tokio::runtime::Handle, ExecutorError>(
                ExecutorError::NoReactor,
            ),
            io is Ok <==> r is Ok,
            r matches Ok(h) ==> h == io->Ok_0,
    {
        match io {
            Err(_) => Err(ExecutorError::NoReactor),
            Ok(h) => Ok(h),
        }
    }

    /// Assembles an executor from a reactor handle and the outcome of building
    /// a pool of `workers` threads.
    pub fn from_parts(
        io: tokio::runtime::Handle,
        pool: Result<rayon::ThreadPool, rayon::ThreadPoolBuildError>,
        workers: usize,
    ) -> (r: Result<AsyncExecutor, ExecutorError>)
        ensures
            r is Ok <==> pool is Ok,
            r matches Ok(e) ==> e.reactor_spec() == io && e.pool_spec() == pool->Ok_0
                && e.workers_spec() == workers,
            r matches Err(err) ==> err == ExecutorError::PoolBuild,
    {
        match pool {
            Err(_) => Err(ExecutorError::PoolBuild),
            Ok(p) => Ok(AsyncExecutor { io, cpu: Arc::new(p), workers }),
        }
    }

    /// The handle of the shared reactor, to enter for each poll step.
    pub fn reactor(&self) -> (r: &tokio::runtime::Handle)
        ensures
            *r == self.reactor_spec(),
    {
        &self.io
    }

    /// The compute-worker pool that runs the poll steps.
    pub fn pool(&self) -> (r: &Arc<rayon::ThreadPool>)
        ensures
            **r == self.pool_spec(),
    {
        &self.cpu
    }

    /// The number of compute workers the pool was built with.
    pub fn worker_threads(&self) -> (r: usize)
        ensures
            r == self.workers_spec(),
    {
        self.workers
    }
}

} // verus!
