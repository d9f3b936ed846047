//! The data shapes at the boundary between the execution engine and the
//! collaborators that consume its output.

use serde_json::Value;
use vstd::prelude::*;

verus! {

/// The deterministic substitute for wall-clock time and entropy of one
/// execution. Never changes once made.
#[derive(Debug, Clone, Copy, PartialEq, Eq, Structural)]
pub struct LogicalContext {
    pub logical_time: u64,
    pub rng_seed: u64,
}

/// What to run and on what input.
#[derive(Debug, Clone)]
pub struct WorkloadSpec {
    /// Where the compiled module lives.
    pub module_locator: String,
    /// The exported function to call, of type i32 -> i32.
    pub entrypoint: String,
    /// The input handed to the guest, as JSON.
    pub input_json: Value,
}

/// The record of one successful execution.
#[derive(Debug, Clone)]
pub struct DeeOutput {
    /// Reserved; always empty.
    pub stdout: String,
    /// Reserved; always empty.
    pub stderr: String,
    /// The guest's result, parsed.
    pub result_json: Value,
    /// SHA-384 of the raw result bytes: 96 lowercase hex digits.
    pub digest_sha384: String,
}

/// An execution record with its build provenance and signatures.
#[derive(Debug, Clone)]
pub struct ProvenanceBundle {
    pub dee_output: DeeOutput,
    pub build_provenance: Value,
    pub sbom: Value,
    pub pq_signatures: Vec<PqSignature>,
}

/// One post-quantum signature over an execution record.
#[derive(Debug, Clone)]
pub struct PqSignature {
    pub role: String,
    pub algorithm: String,
    pub public_key_id: String,
    pub signature_b64: String,
}

/// One named safety invariant and how its check came out.
#[derive(Debug, Clone)]
pub struct SafetyInvariant {
    pub name: String,
    pub status: String,
    pub detail: String,
}

/// The verdict of the permit gate.
#[derive(Debug, Clone)]
pub struct CourtDecision {
    pub permit: bool,
    pub reason: String,
}

} // verus!
