//! Why an execution, or the making of an engine, failed.

use vstd::prelude::*;

verus! {

/// An export that every guest module must provide.
#[derive(Debug, Clone, Copy, PartialEq, Eq, Structural)]
pub enum GuestExport {
    /// `alloc`, of type i32 -> i32.
    Alloc,
    /// The workload's entrypoint, of type i32 -> i32.
    Entrypoint,
    /// `get_result_len`, of type () -> i32.
    ResultLen,
    /// `memory`, the guest's linear memory.
    Memory,
}

/// A point at which guest code runs.
#[derive(Debug, Clone, Copy, PartialEq, Eq, Structural)]
pub enum GuestCall {
    /// The module's start function, run when it is instantiated.
    Start,
    /// The call of `alloc`.
    Alloc,
    /// The call of the entrypoint.
    Entrypoint,
    /// The call of `get_result_len`.
    ResultLen,
}

/// A host access to guest memory.
#[derive(Debug, Clone, Copy, PartialEq, Eq, Structural)]
pub enum MemoryAccess {
    /// Writing the input.
    WriteInput,
    /// Reading the result.
    ReadResult,
}

/// The JSON document that could not be written or read.
#[derive(Debug, Clone, Copy, PartialEq, Eq, Structural)]
pub enum JsonDocument {
    /// The workload's input.
    Input,
    /// The guest's result.
    Result,
}

/// Every way an execution attempt can fail. Each failure ends the attempt:
/// nothing is retried and no partial record is returned.
#[derive(Debug, Clone, Copy, PartialEq, Eq, Structural)]
pub enum DeeError {
    /// The module bytes are not a valid module, or the runtime could not
    /// compile them.
    ModuleLoad,
    /// The module could not be instantiated against the host's imports: it
    /// asks for an import that the host does not offer, or for one of
    /// another type, or the runtime refused the instance.
    Link,
    /// A required export is absent or has the wrong type.
    MissingExport(GuestExport),
    /// Guest code trapped, or the call did not complete for another reason.
    Trap(GuestCall),
    /// A host access fell outside the guest's memory.
    MemoryAccess(MemoryAccess),
    /// A JSON document could not be written or read: the input is too long
    /// for the guest to be told its length, or the result is no JSON.
    Serialization(JsonDocument),
    /// The engine configuration is invalid.
    EngineConfig,
}

} // verus!
