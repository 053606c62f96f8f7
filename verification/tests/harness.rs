//! End-to-end tests of the host: startup, the signal-driven shutdown
//! sequence, its strict ordering, and the two failure paths that skip it.

use std::sync::mpsc::{channel, Sender};
use std::sync::{Arc, Mutex};
use std::time::{Duration, Instant};

use service_host::host::{HostExit, ServiceHost};
use service_host::pool::WorkerPool;
use service_host::service::ServiceControl;

/// Shared, immutable context handed to the service: how many no-op tasks to
/// submit at start, and the shared event log every component records into.
struct Ctx {
    limit: usize,
    log: Arc<Mutex<Vec<String>>>,
}

fn record(log: &Arc<Mutex<Vec<String>>>, event: &str) {
    log.lock().unwrap().push(event.to_string());
}

fn count(log: &Arc<Mutex<Vec<String>>>, event: &str) -> usize {
    log.lock().unwrap().iter().filter(|e| e.as_str() == event).count()
}

/// A service double that records its lifecycle calls and submits
/// `ctx.limit` no-op tasks at start.
struct RecordingService {
    log: Arc<Mutex<Vec<String>>>,
}

impl ServiceControl<Ctx> for RecordingService {
    fn create_and_start(data: Arc<Ctx>, pool: &mut WorkerPool) -> Self {
        record(&data.log, "service_started");
        let mut i: usize = 0;
        while i < data.limit {
            pool.submit(move || {});
            i += 1;
        }
        RecordingService { log: data.log.clone() }
    }

    fn shutdown(self) {
        record(&self.log, "service_shutdown");
    }
}

/// A service double that parks one task on a channel until its own shutdown
/// releases it, so the task can only finish after `shutdown` has run.
struct GatedService {
    log: Arc<Mutex<Vec<String>>>,
    release: Sender<()>,
}

impl ServiceControl<Ctx> for GatedService {
    fn create_and_start(data: Arc<Ctx>, pool: &mut WorkerPool) -> Self {
        let (release, gate) = channel::<()>();
        let log = data.log.clone();
        pool.submit(move || {
            let _ = gate.recv();
            record(&log, "task_finished_drain");
        });
        GatedService { log: data.log.clone(), release }
    }

    fn shutdown(self) {
        record(&self.log, "service_shutdown");
        let _ = self.release.send(());
    }
}

fn new_log() -> Arc<Mutex<Vec<String>>> {
    Arc::new(Mutex::new(Vec::new()))
}

fn start_host<S: ServiceControl<Ctx> + Send + 'static>(
    workers: u16,
    limit: usize,
    log: &Arc<Mutex<Vec<String>>>,
) -> ServiceHost<Ctx, S> {
    let ctx = Arc::new(Ctx { limit, log: log.clone() });
    match ServiceHost::<Ctx, S>::create_and_start(workers, ctx) {
        Ok(host) => host,
        Err(_) => panic!("worker pool allocation failed"),
    }
}

/// Raises the interrupt signal from a pool worker after a delay, so the main
/// thread is already blocked in `wait_for_signal` when it lands.
fn raise_interrupt_soon(delay_ms: u64) -> WorkerPool {
    let mut raiser = match WorkerPool::new(1) {
        Ok(pool) => pool,
        Err(_) => panic!("raiser pool allocation failed"),
    };
    raiser.submit(move || {
        let start = Instant::now();
        while start.elapsed() < Duration::from_millis(delay_ms) {
            std::hint::spin_loop();
        }
        signal_hook::low_level::raise(signal_hook::consts::SIGINT).unwrap();
    });
    raiser
}

#[test]
fn host_pool_has_exactly_requested_workers() {
    let log = new_log();
    let host = start_host::<RecordingService>(4, 0, &log);
    assert_eq!(host.worker_count(), 4);
    let outcome = host.shut_down();
    assert_eq!(outcome.completed, 0);
    assert_eq!(outcome.panicked, 0);

    let log = new_log();
    let host = start_host::<RecordingService>(1, 0, &log);
    assert_eq!(host.worker_count(), 1);
    host.shut_down();
}

#[test]
fn service_shutdown_completes_before_pool_stop() {
    let log = new_log();
    let host = start_host::<GatedService>(2, 0, &log);
    let outcome = host.shut_down();
    assert!(outcome.is_clean());
    assert_eq!(outcome.completed, 1);
    // The gated task can only finish once the service's own shutdown has
    // released it, and the drain waits for it: the recorded order proves the
    // service was fully shut down before the pool finished stopping.
    let events = log.lock().unwrap().clone();
    assert_eq!(events, vec!["service_shutdown".to_string(), "task_finished_drain".to_string()]);
}

#[test]
fn signal_event_runs_exactly_one_shutdown() {
    let log = new_log();
    let host = start_host::<RecordingService>(2, 3, &log);
    let exit = host.on_signal_event(Some(signal_hook::consts::SIGINT));
    match exit {
        HostExit::Completed(outcome) => {
            assert_eq!(outcome.completed, 3);
            assert_eq!(outcome.panicked, 0);
        }
        HostExit::SignalChannelFailed => panic!("expected a completed shutdown"),
    }
    assert_eq!(count(&log, "service_shutdown"), 1);
    // The host was consumed by the event: no second shutdown can be
    // expressed, so a later signal can have no effect on it.
}

#[test]
fn channel_failure_skips_shutdown() {
    let log = new_log();
    let host = start_host::<RecordingService>(2, 1, &log);
    let exit = host.on_signal_event(None);
    assert!(matches!(exit, HostExit::SignalChannelFailed));
    assert_eq!(count(&log, "service_shutdown"), 0);
}

#[test]
fn registration_failure_skips_shutdown() {
    let log = new_log();
    let host = start_host::<RecordingService>(2, 0, &log);
    let os_error = std::io::Error::new(std::io::ErrorKind::AddrInUse, "signal already claimed");
    let registration_error = host.on_registration_failure(os_error);
    assert_eq!(registration_error.source.kind(), std::io::ErrorKind::AddrInUse);
    assert_eq!(count(&log, "service_shutdown"), 0);
    assert_eq!(count(&log, "service_started"), 1);
}

#[test]
fn interrupt_drives_full_scenario() {
    // worker_count = 4, shared context limit = 10: the service submits ten
    // no-op tasks at start; one interrupt signal later, the whole sequence
    // must have run — service shut down, all ten tasks drained cleanly.
    let log = new_log();
    let host = start_host::<RecordingService>(4, 10, &log);
    let raiser = raise_interrupt_soon(500);
    match host.wait_for_signal() {
        Ok(HostExit::Completed(outcome)) => {
            assert_eq!(outcome.completed, 10);
            assert_eq!(outcome.panicked, 0);
            assert!(outcome.is_clean());
        }
        Ok(HostExit::SignalChannelFailed) => panic!("signal channel failed"),
        Err(_) => panic!("signal registration failed"),
    }
    assert_eq!(count(&log, "service_shutdown"), 1);
    raiser.stop();

    // A second interrupt after shutdown has completed: the process has
    // already left the wait, so it has no observable effect — the shutdown
    // count stays at one and the process stays alive.
    signal_hook::low_level::raise(signal_hook::consts::SIGINT).unwrap();
    assert_eq!(count(&log, "service_shutdown"), 1);
}
