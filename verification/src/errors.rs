//! The two construction-time failures the harness can report. Both carry the
//! operating-system error that caused them; neither leaves anything to tear
//! down, because nothing has started when they are raised.

use vstd::prelude::*;

verus! {

/// `std::io::Error` carries the OS error behind a failed thread allocation or
/// signal registration. It is opaque here: the harness only stores it and
/// hands it back to the caller.
#[verifier::external_type_specification]
#[verifier::external_body]
pub struct ExIoError(std::io::Error);

/// The worker pool could not be built: allocating its OS threads failed. No
/// partial host exists when this is returned.
pub struct FatalInitError {
    /// The underlying OS error.
    pub source: std::io::Error,
}

/// Registering the termination signals failed. This is surfaced before any
/// shutdown work begins, so no service or pool teardown is required.
pub struct RegistrationError {
    /// The underlying OS error.
    pub source: std::io::Error,
}

} // verus!
