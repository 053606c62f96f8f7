//! The capability contract a hosted service implements. A service is built
//! exactly once, from the shared context and a handle to the already-running
//! worker pool, and is disposed of exactly once by the consuming `shutdown` —
//! the ownership transfer is what makes use-after-shutdown unrepresentable.

use vstd::prelude::*;

use std::sync::Arc;

use crate::pool::WorkerPool;

verus! {

/// The polymorphic service capability: construct-with-context, then
/// consuming shutdown. `T` is the caller's shared, immutable context; it must
/// outlive the service, which the `Arc` guarantees.
pub trait ServiceControl<T>: Sized {
    /// Constructs and begins running the service. The service may submit
    /// work to `pool`; it cannot resize the pool or stop it (stopping
    /// consumes the pool, which the service only borrows), and it must leave
    /// the pool it was handed in place.
    fn create_and_start(data: Arc<T>, pool: &mut WorkerPool) -> (service: Self)
        ensures
            final(pool).workers() == old(pool).workers();

    /// Consumes the service, performing its graceful teardown. After this
    /// returns the service cannot be invoked again — there is no value left
    /// to invoke it on.
    fn shutdown(self);
}

} // verus!
