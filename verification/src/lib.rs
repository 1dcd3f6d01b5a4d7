//! Core library of the quantum runtime attestation protocol: a runtime state
//! machine, attestations over SHA-256 digests, and the oracle side of a Grover
//! search.

pub mod attestation;
pub mod clock;
pub mod digest;
pub mod grover;
pub mod runtime;
pub mod text;

pub use attestation::{Attestation, AttestationBuilder, AttestationError, AttestationResult};
pub use grover::{GroverOracle, SingleTargetOracle};
pub use runtime::{QrapRuntime, RuntimeConfig, RuntimeError, RuntimeState};

use vstd::prelude::*;

verus! {

/// Library version.
pub const VERSION: &'static str = "0.1.0";

/// Initializes the library: creates a runtime with the default configuration,
/// which the runtime accepts.
pub fn init() -> (res: Result<(), RuntimeError>)
    ensures
        res is Ok,
{
    match QrapRuntime::new(RuntimeConfig::default()) {
        Ok(_) => Ok(()),
        Err(e) => Err(e),
    }
}

} // verus!
