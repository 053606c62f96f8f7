//! The worker pool: a fixed number of OS worker threads behind a `tokio`
//! multi-thread runtime. The pool is `Running` while it is owned — it accepts
//! submissions and tracks a handle for each — and reaches its terminal
//! `Stopped` state only through the consuming [`WorkerPool::stop`], which
//! drains every submitted task and contains any panic a task raised.

use vstd::prelude::*;

use crate::errors::FatalInitError;

verus! {

/// `tokio::runtime::Runtime` owns the pool's worker threads and scheduler;
/// the harness treats it as an opaque capability: spawn work, block on it.
#[verifier::external_type_specification]
#[verifier::external_body]
pub struct ExRuntime(tokio::runtime::Runtime);

/// `tokio::task::JoinHandle<T>` resolves once the task behind it finishes.
#[verifier::external_type_specification]
#[verifier::external_body]
#[verifier::reject_recursive_types(T)]
pub struct ExJoinHandle<T>(tokio::task::JoinHandle<T>);

/// `tokio::task::JoinError` is how tokio reports that a task panicked (or was
/// cancelled; this pool never cancels). It is the contained form of a panic.
#[verifier::external_type_specification]
#[verifier::external_body]
pub struct ExJoinError(tokio::task::JoinError);

/// Runs one submitted task. The pool's runtime calls this, through the lazy
/// future handed to it, on one of its worker threads.
fn run_task<F: FnOnce() + Send + 'static>(task: F)
    requires
        call_requires(task, ()),
{
    task();
}

/// Relies on `tokio::runtime::Builder`: `new_multi_thread()` followed by
/// `worker_threads(worker_count)` and `build()` allocates a runtime with
/// exactly `worker_count` worker threads, or returns the OS error when thread
/// allocation fails. `worker_threads` panics on zero, which the precondition
/// rules out.
#[verifier::external_body]
fn build_runtime(worker_count: u16) -> (r: Result<tokio::runtime::Runtime, std::io::Error>)
    requires
        worker_count >= 1,
{
    tokio::runtime::Builder::new_multi_thread().worker_threads(worker_count as usize).build()
}

/// Relies on `tokio::runtime::Runtime::spawn`: the task starts running in the
/// background on the runtime's workers, and the returned handle resolves once
/// it finishes. The spawned future is `futures::future::lazy`, whose closure
/// only calls [`run_task`] on the submitted task.
#[verifier::external_body]
fn spawn_task<F: FnOnce() + Send + 'static>(
    runtime: &tokio::runtime::Runtime,
    task: F,
) -> (handle: tokio::task::JoinHandle<()>)
    requires
        call_requires(task, ()),
{
    runtime.spawn(futures::future::lazy(move |_| run_task(task)))
}

/// Relies on `tokio::runtime::Runtime::block_on` and on `JoinHandle`'s
/// `Future` implementation: the call blocks until the task behind `handle`
/// has finished, and `Err` holds the `JoinError` in which tokio caught the
/// task's panic — so a panicking task surfaces here as a value instead of
/// crashing the drain.
#[verifier::external_body]
fn join_task(
    runtime: &tokio::runtime::Runtime,
    handle: tokio::task::JoinHandle<()>,
) -> (r: Result<(), tokio::task::JoinError>) {
    runtime.block_on(handle)
}

/// What draining the pool observed: every submitted task either completed or
/// panicked, and a panic is counted — contained — rather than propagated.
pub struct DrainOutcome {
    /// Tasks that finished normally.
    pub completed: usize,
    /// Tasks whose panic the drain contained.
    pub panicked: usize,
}

impl DrainOutcome {
    /// How many tasks the drain accounted for.
    pub open spec fn submitted(self) -> int {
        self.completed + self.panicked
    }

    /// A drain is clean exactly when no task panicked.
    pub open spec fn clean(self) -> bool {
        self.panicked == 0
    }

    /// Whether the drain completed without containing any panic.
    pub fn is_clean(&self) -> (clean: bool)
        ensures
            clean == self.clean(),
    {
        self.panicked == 0
    }
}

/// A clean drain is precisely one in which every accounted task completed.
pub proof fn lemma_clean_drain_completes_all(outcome: DrainOutcome)
    ensures
        outcome.clean() <==> outcome.completed == outcome.submitted(),
{
}

/// A bounded set of `workers()` OS worker threads. `Running` while owned:
/// accepting and executing work. The only way out is the consuming
/// [`WorkerPool::stop`] — `Draining`, then `Stopped` — so a stopped pool can
/// never be submitted to again.
pub struct WorkerPool {
    runtime: tokio::runtime::Runtime,
    pending: Vec<tokio::task::JoinHandle<()>>,
    workers: u16,
}

impl WorkerPool {
    /// The number of worker threads, fixed at construction.
    pub closed spec fn workers(self) -> u16 {
        self.workers
    }

    /// How many submitted tasks the pool still holds a handle for.
    pub closed spec fn pending_tasks(self) -> nat {
        self.pending@.len()
    }

    /// A pool always has at least one worker.
    pub open spec fn well_formed(self) -> bool {
        self.workers() >= 1
    }

    /// Allocates a pool of exactly `worker_count` worker threads, ready to
    /// accept work; fails with [`FatalInitError`] when the underlying OS
    /// thread creation fails.
    pub fn new(worker_count: u16) -> (r: Result<WorkerPool, FatalInitError>)
        requires
            worker_count >= 1,
        ensures
            r matches Ok(pool) ==> {
                &&& pool.workers() == worker_count
                &&& pool.pending_tasks() == 0
                &&& pool.well_formed()
            },
    {
        match build_runtime(worker_count) {
            Ok(runtime) => Ok(WorkerPool { runtime, pending: Vec::new(), workers: worker_count }),
            Err(source) => Err(FatalInitError { source }),
        }
    }

    /// The number of worker threads, fixed at construction.
    pub fn worker_count(&self) -> (n: u16)
        ensures
            n == self.workers(),
    {
        self.workers
    }

    /// How many submitted tasks have not been drained yet.
    pub fn pending_count(&self) -> (n: usize)
        ensures
            n == self.pending_tasks(),
    {
        self.pending.len()
    }

    /// Hands one unit of work to the pool. It starts running on any available
    /// worker — ordering across tasks is not guaranteed — and is executed at
    /// most once; the pool keeps its handle so that `stop` can drain it.
    pub fn submit<F: FnOnce() + Send + 'static>(&mut self, task: F)
        requires
            call_requires(task, ()),
        ensures
            final(self).workers() == old(self).workers(),
            final(self).pending_tasks() == old(self).pending_tasks() + 1,
    {
        let handle = spawn_task(&self.runtime, task);
        self.pending.push(handle);
    }

    /// Stops the pool: no further submission is possible (the pool is
    /// consumed), every submitted task is waited for, and a task that panics
    /// during the drain is contained and counted rather than propagated. The
    /// outcome accounts for every submitted task.
    pub fn stop(self) -> (outcome: DrainOutcome)
        ensures
            outcome.submitted() == self.pending_tasks(),
            outcome.clean() <==> outcome.panicked == 0,
    {
        let mut this = self;
        let total: usize = this.pending.len();
        let mut completed: usize = 0;
        let mut panicked: usize = 0;
        while this.pending.len() > 0
            invariant
                completed + panicked + this.pending@.len() == total,
            decreases this.pending@.len(),
        {
            let handle = this.pending.pop().unwrap();
            match join_task(&this.runtime, handle) {
                Ok(_) => {
                    completed = completed + 1;
                },
                Err(_) => {
                    panicked = panicked + 1;
                },
            }
        }
        DrainOutcome { completed, panicked }
    }
}

} // verus!
