//! A deterministic execution engine: runs a sandboxed module on a given input
//! and returns its result with a SHA-384 digest of the exact result bytes.
//!
//! An execution may depend on its module, its input and its logical context,
//! and on nothing else: the host offers a logical clock in place of the wall
//! clock, the engine runs with every nondeterministic setting of the runtime
//! switched off, and the digest is taken over the bytes the guest produced.

pub mod digest;
pub mod engine;
pub mod error;
pub mod exec;
pub mod guest;
pub mod host;
pub mod json;
pub mod marshal;
pub mod models;

pub use engine::create_deterministic_engine;
pub use error::{DeeError, GuestCall, GuestExport, JsonDocument, MemoryAccess};
pub use exec::execute_deterministic;
pub use host::{CountingHost, DefaultDeterministicHost, DeterministicHost};
pub use models::{
    CourtDecision, DeeOutput, LogicalContext, PqSignature, ProvenanceBundle, SafetyInvariant,
    WorkloadSpec,
};
