//! The service host: the top-level coordinator. It owns one service and one
//! worker pool for its whole life, and its states are Constructing → Running
//! → ShuttingDown → Terminated. The consuming signatures are the core design
//! decision: `wait_for_signal` and the shutdown path take the host by value,
//! so a second shutdown attempt, or any use of the service after its
//! shutdown, cannot even be written.

use vstd::prelude::*;

use std::io::Write;
use std::marker::PhantomData;
use std::sync::Arc;

use crate::errors::{FatalInitError, RegistrationError};
use crate::pool::{DrainOutcome, WorkerPool};
use crate::service::ServiceControl;
use crate::signals::{register_signals, wait_for_first_signal};

verus! {

/// Relies on the `std::io::Write` implementation of `std::io::Stderr`
/// (through `writeln!`): appends one diagnostic line to the process's error
/// stream. Diagnostics only; nothing is decided by it.
#[verifier::external_body]
fn note_line(message: &str) {
    let _ = writeln!(std::io::stderr(), "{}", message);
}

/// How a hosted run ended, once the host had begun waiting for a signal.
pub enum HostExit {
    /// The first termination signal arrived and the single shutdown sequence
    /// ran to completion: service first, then the pool's drain, whose
    /// outcome this carries.
    Completed(DrainOutcome),
    /// The notification channel failed underneath the wait. No shutdown ran:
    /// the harness has no other way to learn of a shutdown request, so the
    /// caller must treat this as fatal to the process.
    SignalChannelFailed,
}

/// The composite owning one service and one worker pool. Exactly one
/// shutdown sequence can ever execute, because every path into it consumes
/// the host.
pub struct ServiceHost<T, S> {
    service_container: S,
    thread_manager: WorkerPool,
    phantom: PhantomData<T>,
}

impl<T, S> ServiceHost<T, S> where T: Send + 'static, S: ServiceControl<T> + Send + 'static {
    /// The worker count of the host's pool, fixed at construction.
    pub closed spec fn workers(self) -> u16 {
        self.thread_manager.workers()
    }

    /// Tasks submitted to the host's pool and not yet drained.
    pub closed spec fn pending_tasks(self) -> nat {
        self.thread_manager.pending_tasks()
    }

    /// A host's pool always has at least one worker.
    pub open spec fn well_formed(self) -> bool {
        self.workers() >= 1
    }

    /// Constructing → Running: builds the worker pool — failing with
    /// [`FatalInitError`] and no partial host when thread allocation fails —
    /// then builds the service from the shared context and that pool.
    pub fn create_and_start(worker_count: u16, data: Arc<T>) -> (r: Result<Self, FatalInitError>)
        requires
            worker_count >= 1,
        ensures
            r matches Ok(host) ==> host.workers() == worker_count && host.well_formed(),
    {
        let mut pool = match WorkerPool::new(worker_count) {
            Ok(pool) => pool,
            Err(error) => {
                return Err(error);
            },
        };
        let service = S::create_and_start(data, &mut pool);
        Ok(ServiceHost { service_container: service, thread_manager: pool, phantom: PhantomData })
    }

    /// The exposed worker count of the host's pool.
    pub fn worker_count(&self) -> (n: u16)
        ensures
            n == self.workers(),
    {
        self.thread_manager.worker_count()
    }

    /// ShuttingDown → Terminated: the single shutdown sequence, in strict
    /// order — note that shutdown has begun, shut the service down (consuming
    /// it), then stop the pool. The pool cannot be stopped before the
    /// service's shutdown has returned: `stop` needs the pool by value, and
    /// the host that holds it is only taken apart here, after that call. The
    /// returned outcome accounts for every task the pool still held.
    pub fn shut_down(self) -> (outcome: DrainOutcome)
        ensures
            outcome.submitted() == self.pending_tasks(),
            outcome.clean() <==> outcome.panicked == 0,
    {
        note_line("shutdown begins");
        let ServiceHost { service_container, thread_manager, phantom: _ } = self;
        service_container.shutdown();
        thread_manager.stop()
    }

    /// Running → Terminated, driven by one observed wait outcome: a signal
    /// arrival (`Some`) runs the single shutdown sequence and reports its
    /// drain outcome; a failed channel (`None`) runs no shutdown and is
    /// reported for the caller to escalate. Either way the host is consumed.
    pub fn on_signal_event(self, signal: Option<i32>) -> (exit: HostExit)
        ensures
            signal is Some ==> ({
                &&& exit matches HostExit::Completed(outcome)
                &&& outcome.submitted() == self.pending_tasks()
                &&& (outcome.clean() <==> outcome.panicked == 0)
            }),
            signal is None ==> exit is SignalChannelFailed,
    {
        match signal {
            Some(_) => HostExit::Completed(self.shut_down()),
            None => {
                note_line("signal channel failed before any signal arrived");
                HostExit::SignalChannelFailed
            },
        }
    }

    /// Running → nothing-to-tear-down: signal registration failed before the
    /// wait began, so the shutdown sequence is not started — the service's
    /// shutdown is never called — and the OS error is wrapped for the
    /// caller. The host is consumed, so the run is over either way.
    pub fn on_registration_failure(self, error: std::io::Error) -> (r: RegistrationError)
        ensures
            r.source == error,
    {
        RegistrationError { source: error }
    }

    /// Running → ShuttingDown: consumes the host — no second wait, and so no
    /// second shutdown, can ever be expressed — registers the two
    /// termination signals, and blocks the calling thread until the first of
    /// them arrives. On arrival the single shutdown sequence runs and its
    /// outcome is returned; if registration fails the [`RegistrationError`]
    /// is returned at once and nothing is torn down, since nothing was
    /// started; if the wait channel itself fails, that is reported as
    /// [`HostExit::SignalChannelFailed`] for the caller to escalate.
    pub fn wait_for_signal(self) -> (r: Result<HostExit, RegistrationError>)
        ensures
            r matches Ok(exit) ==> ({
                ||| ({
                    &&& exit matches HostExit::Completed(outcome)
                    &&& outcome.submitted() == self.pending_tasks()
                    &&& (outcome.clean() <==> outcome.panicked == 0)
                })
                ||| exit is SignalChannelFailed
            }),
    {
        note_line("waiting for exit signal");
        let mut signals = match register_signals() {
            Ok(signals) => signals,
            Err(error) => {
                return Err(self.on_registration_failure(error));
            },
        };
        let first = wait_for_first_signal(&mut signals);
        Ok(self.on_signal_event(first))
    }
}

} // verus!
