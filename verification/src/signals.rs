//! The signal waiter: registers the two termination signals — interrupt and
//! terminate — and produces one notification the first time either arrives.
//! Only that first occurrence matters to the host; everything after it is
//! outside the wait.

use vstd::prelude::*;

verus! {

/// `signal_hook::iterator::Signals` owns the registration of a set of
/// signals and yields their arrivals. Its declaration — generic over
/// signal_hook's sealed `Exfiltrator` trait — is not one Verus accepts, so
/// this struct holds it opaquely instead; nothing of it is visible to
/// proofs.
#[verifier::external_body]
pub struct SignalSet {
    signals: signal_hook::iterator::Signals,
}

/// Relies on `signal_hook::iterator::Signals::new`: registers a handler for
/// the interrupt and terminate signals (`SIGINT`, `SIGTERM`) and returns the
/// registered set, or the OS error when registration itself fails — in which
/// case nothing stays registered.
#[verifier::external_body]
pub(crate) fn register_signals() -> (r: Result<SignalSet, std::io::Error>) {
    match signal_hook::iterator::Signals::new(
        [signal_hook::consts::SIGINT, signal_hook::consts::SIGTERM],
    ) {
        Ok(signals) => Ok(SignalSet { signals }),
        Err(error) => Err(error),
    }
}

/// Relies on `Forever::next` from `signal_hook::iterator`: blocks the calling
/// thread until the first registered signal arrives and returns its number;
/// returns `None` only when the delivery channel was closed underneath the
/// wait, which this crate never does itself — the caller must treat that as
/// the channel having failed. On an internal delivery error signal_hook
/// panics with its own diagnostic, which matches the policy that a broken
/// wait is fatal to the process.
#[verifier::external_body]
pub(crate) fn wait_for_first_signal(set: &mut SignalSet) -> (r: Option<i32>) {
    set.signals.forever().next()
}

} // verus!
