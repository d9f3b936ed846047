//! The execution orchestrator: loads a module, binds it to the one host
//! import, hands it the input through guest memory, runs it, and reads,
//! parses and digests the result.
//!
//! The steps run in one fixed order, and the first failure ends the attempt.
//! What the runtime answers at each step is the runtime's; which answer leads
//! to which outcome is stated here, step by step and for the whole run.

use crate::digest::{digest_sha384, digest_text};
use crate::error::{DeeError, GuestCall, GuestExport, JsonDocument, MemoryAccess};
use crate::guest::{
    call_func, call_getter, call_outcome, compile_module, compiled, define_constant, export_func,
    export_getter, export_memory, exported, exported_func, exported_getter, exported_memory,
    func_owner, getter_outcome, instance_owner, instantiate, instantiated, is_trap,
    is_trap_error, linker_constants, linker_engine, linker_is_plain, memory_contents,
    memory_owner, memory_read, memory_size, memory_write, new_linker, new_store, no_constants,
    overwritten, store_after_lookup, store_after_write, store_engine, store_id, CallOutcome,
    Instantiation,
};
use crate::host::DeterministicHost;
use crate::json::{json_from_slice, json_text, json_to_string, json_value};
use crate::marshal::{allocation_request, guest_offset, offset_of, region_in_bounds, result_region};
use crate::models::{DeeOutput, WorkloadSpec};
use serde_json::Value;
use vstd::prelude::*;
use vstd::utf8::encode_utf8;
use wasmtime::{Engine, Instance, Linker, Memory, Module, Store, TypedFunc};

verus! {

/// Whether `output` is the record of a run whose result bytes were `raw`:
/// the parsed result is what `raw` holds, the digest is that of `raw` itself,
/// and the reserved fields are empty.
pub open spec fn is_record_of(output: DeeOutput, raw: Seq<u8>) -> bool {
    &&& output.stdout@ == Seq::<char>::empty()
    &&& output.stderr@ == Seq::<char>::empty()
    &&& json_value(raw) == Some(output.result_json)
    &&& output.digest_sha384@ == digest_text(raw)
}

/// All that the host offers to a guest: `env.get_logical_time`, which returns
/// the logical time, and nothing else.
pub open spec fn host_imports(logical_time: u64) -> Map<(Seq<char>, Seq<char>), u64> {
    no_constants().insert(("env"@, "get_logical_time"@), logical_time)
}

/// The failure that a refused instantiation stands for: a trap of the
/// module's start function, or else a refusal to link.
pub open spec fn start_failure(error: wasmtime::Error) -> DeeError {
    if is_trap_error(error) {
        DeeError::Trap(GuestCall::Start)
    } else {
        DeeError::Link
    }
}

/// What a call of the guest comes to: the integer it returned, or a trap of
/// that call where it did not complete.
pub open spec fn returned_or_trap(returned: Option<i32>, call: GuestCall) -> Result<i32, DeeError> {
    match returned {
        Some(value) => Ok(value),
        None => Err(DeeError::Trap(call)),
    }
}

/// How the call of `alloc` for `size` bytes ends, where the instance exports
/// `alloc`: the export is looked up, then called.
pub open spec fn alloc_call(store: Store<()>, instance: Instance, size: i32) -> CallOutcome {
    call_outcome(
        store_after_lookup(store, instance, "alloc"@),
        export_func(instance, "alloc"@),
        size,
    )
}

/// What asking the guest for `size` bytes comes to.
pub open spec fn allocation(store: Store<()>, instance: Instance, size: i32) -> Result<
    i32,
    DeeError,
> {
    if exported(instance, "alloc"@) is Function {
        returned_or_trap(alloc_call(store, instance, size).returned, GuestCall::Alloc)
    } else {
        Err(DeeError::MissingExport(GuestExport::Alloc))
    }
}

/// The store after the guest was asked for `size` bytes.
pub open spec fn store_after_allocation(store: Store<()>, instance: Instance, size: i32) -> Store<
    (),
> {
    if exported(instance, "alloc"@) is Function {
        alloc_call(store, instance, size).store
    } else {
        store_after_lookup(store, instance, "alloc"@)
    }
}

/// How the call of `get_result_len` ends, where the instance exports it: the
/// export is looked up, then called.
pub open spec fn length_call(store: Store<()>, instance: Instance) -> CallOutcome {
    getter_outcome(
        store_after_lookup(store, instance, "get_result_len"@),
        export_getter(instance, "get_result_len"@),
    )
}

/// What asking the guest for the length of its result comes to.
pub open spec fn length_query(store: Store<()>, instance: Instance) -> Result<i32, DeeError> {
    if exported(instance, "get_result_len"@) is Getter {
        returned_or_trap(length_call(store, instance).returned, GuestCall::ResultLen)
    } else {
        Err(DeeError::MissingExport(GuestExport::ResultLen))
    }
}

/// The store after the guest was asked for the length of its result.
pub open spec fn store_after_length_query(store: Store<()>, instance: Instance) -> Store<()> {
    if exported(instance, "get_result_len"@) is Getter {
        length_call(store, instance).store
    } else {
        store_after_lookup(store, instance, "get_result_len"@)
    }
}

/// The bytes that reading the result from `memory` gives, or the refusal of
/// a result that reaches beyond the memory.
pub open spec fn result_read(store: Store<()>, memory: Memory, result_ptr: i32, result_len: i32)
    -> Result<Seq<u8>, DeeError> {
    let contents = memory_contents(store, memory);
    if region_in_bounds(result_ptr, result_len, contents.len() as int) {
        Ok(contents.subrange(offset_of(result_ptr), offset_of(result_ptr) + offset_of(result_len)))
    } else {
        Err(DeeError::MemoryAccess(MemoryAccess::ReadResult))
    }
}

/// The last part of the handshake, from the call of the entrypoint on: call
/// it on the input's place, ask for the result's length, read that many
/// bytes from where the entrypoint pointed.
pub open spec fn result_of_entrypoint(
    store: Store<()>,
    instance: Instance,
    entrypoint: Seq<char>,
    memory: Memory,
    input_ptr: i32,
) -> Result<Seq<u8>, DeeError> {
    let ran = call_outcome(store, export_func(instance, entrypoint), input_ptr);
    match ran.returned {
        None => Err(DeeError::Trap(GuestCall::Entrypoint)),
        Some(result_ptr) => match length_query(ran.store, instance) {
            Err(e) => Err(e),
            Ok(result_len) => result_read(
                store_after_length_query(ran.store, instance),
                memory,
                result_ptr,
                result_len,
            ),
        },
    }
}

/// The middle part of the handshake, once the guest has made room at
/// `input_ptr`: find the guest's memory, write the input there, and go on
/// with the entrypoint.
pub open spec fn result_of_input(
    store: Store<()>,
    instance: Instance,
    entrypoint: Seq<char>,
    input: Seq<u8>,
    input_ptr: i32,
) -> Result<Seq<u8>, DeeError> {
    if !(exported(instance, "memory"@) is Memory) {
        Err(DeeError::MissingExport(GuestExport::Memory))
    } else {
        let found = store_after_lookup(store, instance, "memory"@);
        let memory = export_memory(instance, "memory"@);
        if offset_of(input_ptr) + input.len() > memory_contents(found, memory).len() {
            Err(DeeError::MemoryAccess(MemoryAccess::WriteInput))
        } else {
            result_of_entrypoint(
                store_after_write(found, memory, offset_of(input_ptr), input),
                instance,
                entrypoint,
                memory,
                input_ptr,
            )
        }
    }
}

/// What the handshake with a started instance comes to: the raw result
/// bytes, or the failure of the first step that failed.
///
/// In order: the entrypoint must be exported; the input must not be too long
/// for the guest to be told its length; `alloc` is asked for room of that
/// length; the input is written there; the entrypoint is called on it;
/// `get_result_len` is asked; the result is read.
pub open spec fn handshake_outcome(
    store: Store<()>,
    instance: Instance,
    entrypoint: Seq<char>,
    input: Seq<u8>,
) -> Result<Seq<u8>, DeeError> {
    if !(exported(instance, entrypoint) is Function) {
        Err(DeeError::MissingExport(GuestExport::Entrypoint))
    } else if input.len() > i32::MAX {
        Err(DeeError::Serialization(JsonDocument::Input))
    } else {
        let resolved = store_after_lookup(store, instance, entrypoint);
        let size = input.len() as i32;
        match allocation(resolved, instance, size) {
            Err(e) => Err(e),
            Ok(input_ptr) => result_of_input(
                store_after_allocation(resolved, instance, size),
                instance,
                entrypoint,
                input,
                input_ptr,
            ),
        }
    }
}

/// What a run in the store `fresh` comes to, of a module that has been
/// compiled: the module is instantiated against the one host import, which
/// returns `logical_time`, and the handshake follows on the input text.
pub open spec fn guest_run(
    fresh: Store<()>,
    module: Module,
    logical_time: u64,
    entrypoint: Seq<char>,
    input_text: Seq<char>,
) -> Result<Seq<u8>, DeeError> {
    let started = instantiated(host_imports(logical_time), fresh, module);
    match started.result {
        Err(error) => Err(start_failure(error)),
        Ok(instance) => handshake_outcome(
            started.store,
            instance,
            entrypoint,
            encode_utf8(input_text),
        ),
    }
}

/// Whether `r` is what a run that ended as `run` returns: the record of the
/// raw bytes where they read as JSON, the failure to read them where they do
/// not, and the run's own failure where it has one.
pub open spec fn is_outcome_of(r: Result<DeeOutput, DeeError>, run: Result<Seq<u8>, DeeError>)
    -> bool {
    match run {
        Ok(raw) => if json_value(raw) is Some {
            r matches Ok(output) && is_record_of(output, raw)
        } else {
            r == Err::<DeeOutput, DeeError>(DeeError::Serialization(JsonDocument::Result))
        },
        Err(e) => r == Err::<DeeOutput, DeeError>(e),
    }
}

/// Whether `r` is what an execution returns on these inputs: a load error
/// where the runtime makes no module of the bytes, and else the outcome of
/// the run in some fresh store of the engine.
pub open spec fn is_execution_of(
    r: Result<DeeOutput, DeeError>,
    engine: Engine,
    module_bytes: Seq<u8>,
    logical_time: u64,
    entrypoint: Seq<char>,
    input_text: Seq<char>,
) -> bool {
    match compiled(engine, module_bytes) {
        None => r == Err::<DeeOutput, DeeError>(DeeError::ModuleLoad),
        Some(module) => exists|fresh: Store<()>| #[trigger]
            store_engine(fresh) == engine && is_outcome_of(
                r,
                guest_run(fresh, module, logical_time, entrypoint, input_text),
            ),
    }
}

/// A record is settled by the bytes it is the record of: two records of the
/// same bytes agree in every field.
pub proof fn lemma_record_determined_by_bytes(a: DeeOutput, b: DeeOutput, raw: Seq<u8>)
    requires
        is_record_of(a, raw),
        is_record_of(b, raw),
    ensures
        a.result_json == b.result_json,
        a.digest_sha384@ == b.digest_sha384@,
        a.stdout@ == b.stdout@,
        a.stderr@ == b.stderr@,
{
}

/// What is returned is settled by how the run ended: two returns of runs
/// that ended alike are both the same failure, or both records that agree in
/// every field.
pub proof fn lemma_outcome_determined_by_run(
    a: Result<DeeOutput, DeeError>,
    b: Result<DeeOutput, DeeError>,
    run: Result<Seq<u8>, DeeError>,
)
    requires
        is_outcome_of(a, run),
        is_outcome_of(b, run),
    ensures
        a is Ok <==> b is Ok,
        a matches Err(e) ==> b == Err::<DeeOutput, DeeError>(e),
        a matches Ok(x) ==> (b matches Ok(y) && x.result_json == y.result_json
            && x.digest_sha384@ == y.digest_sha384@ && x.stdout@ == y.stdout@ && x.stderr@
            == y.stderr@),
{
}

/// The failure that a refused instantiation stands for: a trap of the
/// module's start function, or else imports that could not be satisfied.
pub fn instantiation_failure(trapped: bool) -> (e: DeeError)
    ensures
        trapped ==> e == DeeError::Trap(GuestCall::Start),
        !trapped ==> e == DeeError::Link,
{
    if trapped {
        DeeError::Trap(GuestCall::Start)
    } else {
        DeeError::Link
    }
}

/// Makes the linker of one execution. It defines the one host import and
/// nothing else, so guest code reaches no clock but the logical one, and no
/// randomness, file or network at all.
pub fn host_linker(engine: &Engine, logical_time: u64) -> (r: Result<Linker<()>, DeeError>)
    ensures
        r is Ok,
        r matches Ok(linker) ==> {
            &&& linker_engine(linker) == *engine
            &&& linker_is_plain(linker)
            &&& linker_constants(linker) == host_imports(logical_time)
        },
{
    let mut linker = new_linker(engine);
    match define_constant(&mut linker, "env", "get_logical_time", logical_time) {
        Ok(()) => Ok(linker),
        Err(_) => Err(DeeError::Link),
    }
}

/// What loading comes to, given what the runtime made of the module bytes:
/// the module it compiled, or `ModuleLoad` where it refused them.
pub fn module_outcome(compiled: Result<Module, wasmtime::Error>) -> (r: Result<Module, DeeError>)
    ensures
        compiled matches Ok(module) ==> r == Ok::<Module, DeeError>(module),
        compiled is Err ==> r == Err::<Module, DeeError>(DeeError::ModuleLoad),
{
    match compiled {
        Ok(module) => Ok(module),
        Err(_) => Err(DeeError::ModuleLoad),
    }
}

/// Compiles and validates the module. Succeeds exactly when the runtime
/// makes a module of the bytes, and returns that module; fails with
/// `ModuleLoad` where it refuses them.
pub fn load_module(engine: &Engine, module_bytes: &[u8]) -> (r: Result<Module, DeeError>)
    ensures
        r is Ok <==> compiled(*engine, module_bytes@) is Some,
        r matches Ok(module) ==> compiled(*engine, module_bytes@) == Some(module),
        r matches Err(e) ==> e == DeeError::ModuleLoad,
{
    module_outcome(compile_module(engine, module_bytes))
}

/// Whether `r` is what starting comes to, given how the instantiation ended:
/// the store and the instance, or the failure that the refusal stands for.
pub open spec fn is_start_of(r: Result<(Store<()>, Instance), DeeError>, started: Instantiation)
    -> bool {
    match started.result {
        Ok(instance) => r == Ok::<(Store<()>, Instance), DeeError>((started.store, instance)),
        Err(error) => r == Err::<(Store<()>, Instance), DeeError>(start_failure(error)),
    }
}

/// Instantiates the module in a fresh store of its own, which runs the
/// module's start function if it has one. Nothing of another execution is in
/// that store, and the instance belongs to it.
///
/// Succeeds exactly when the runtime instantiates the module in that store.
/// Fails with `Trap` where the start function trapped, and with `Link` on any
/// other refusal, such as an import that the linker does not satisfy.
pub fn start_instance(engine: &Engine, linker: &Linker<()>, module: &Module) -> (r: Result<
    (Store<()>, Instance),
    DeeError,
>)
    requires
        linker_is_plain(*linker),
        linker_engine(*linker) == *engine,
    ensures
        exists|fresh: Store<()>| #[trigger]
            store_engine(fresh) == *engine && is_start_of(
                r,
                instantiated(linker_constants(*linker), fresh, *module),
            ),
        r matches Ok(started) ==> instance_owner(started.1) == store_id(started.0),
{
    let mut store = new_store(engine);
    let ghost fresh = store;
    let r = match instantiate(linker, &mut store, module) {
        Ok(instance) => Ok((store, instance)),
        Err(error) => Err(instantiation_failure(is_trap(&error))),
    };
    assert(store_engine(fresh) == *engine && is_start_of(
        r,
        instantiated(linker_constants(*linker), fresh, *module),
    ));
    r
}

/// Writes the input as compact JSON text. Always succeeds.
pub fn input_text(input: &Value) -> (r: Result<String, DeeError>)
    ensures
        r matches Ok(text) && text@ == json_text(*input),
{
    match json_to_string(input) {
        Ok(text) => Ok(text),
        Err(_) => Err(DeeError::Serialization(JsonDocument::Input)),
    }
}

/// What the call of the entrypoint comes to, given how it ended: the integer
/// the guest returned, which is where it put its result, or a trap of the
/// entrypoint where the call did not complete.
pub fn entrypoint_outcome(called: Result<i32, wasmtime::Error>) -> (r: Result<i32, DeeError>)
    ensures
        called matches Ok(result_ptr) ==> r == Ok::<i32, DeeError>(result_ptr),
        called is Err ==> r == Err::<i32, DeeError>(DeeError::Trap(GuestCall::Entrypoint)),
{
    match called {
        Ok(result_ptr) => Ok(result_ptr),
        Err(_) => Err(DeeError::Trap(GuestCall::Entrypoint)),
    }
}

/// What the call of `alloc` comes to, given how it ended: the integer the
/// guest returned, which is where it made room, or a trap of `alloc`.
pub fn alloc_outcome(called: Result<i32, wasmtime::Error>) -> (r: Result<i32, DeeError>)
    ensures
        called matches Ok(input_ptr) ==> r == Ok::<i32, DeeError>(input_ptr),
        called is Err ==> r == Err::<i32, DeeError>(DeeError::Trap(GuestCall::Alloc)),
{
    match called {
        Ok(input_ptr) => Ok(input_ptr),
        Err(_) => Err(DeeError::Trap(GuestCall::Alloc)),
    }
}

/// What the call of `get_result_len` comes to, given how it ended: the
/// integer the guest returned, which is the length of its result, or a trap
/// of `get_result_len`.
pub fn result_length_outcome(called: Result<i32, wasmtime::Error>) -> (r: Result<i32, DeeError>)
    ensures
        called matches Ok(result_len) ==> r == Ok::<i32, DeeError>(result_len),
        called is Err ==> r == Err::<i32, DeeError>(DeeError::Trap(GuestCall::ResultLen)),
{
    match called {
        Ok(result_len) => Ok(result_len),
        Err(_) => Err(DeeError::Trap(GuestCall::ResultLen)),
    }
}

/// Calls the entrypoint on the input and returns where the guest put its
/// result: the integer that the call returns in this state of the store. The
/// only failure is a trap of the entrypoint.
pub fn run_entrypoint(entrypoint: &TypedFunc<i32, i32>, store: &mut Store<()>, input_ptr: i32) -> (r:
    Result<i32, DeeError>)
    requires
        func_owner(*entrypoint) == store_id(*old(store)),
    ensures
        r == returned_or_trap(
            call_outcome(*old(store), *entrypoint, input_ptr).returned,
            GuestCall::Entrypoint,
        ),
        *final(store) == call_outcome(*old(store), *entrypoint, input_ptr).store,
        store_id(*final(store)) == store_id(*old(store)),
        r matches Err(e) ==> e == DeeError::Trap(GuestCall::Entrypoint),
{
    entrypoint_outcome(call_func(entrypoint, store, input_ptr))
}

/// Resolves the workload's entrypoint: the function of type i32 -> i32 that
/// the instance exports under `name`.
///
/// Fails with `MissingExport` exactly when there is no such export.
pub fn resolve_entrypoint(instance: &Instance, store: &mut Store<()>, name: &str) -> (r: Result<
    TypedFunc<i32, i32>,
    DeeError,
>)
    requires
        instance_owner(*instance) == store_id(*old(store)),
    ensures
        *final(store) == store_after_lookup(*old(store), *instance, name@),
        store_id(*final(store)) == store_id(*old(store)),
        r is Ok <==> exported(*instance, name@) is Function,
        r matches Ok(func) ==> func == export_func(*instance, name@) && func_owner(func)
            == store_id(*old(store)),
        r matches Err(e) ==> e == DeeError::MissingExport(GuestExport::Entrypoint),
{
    match exported_func(instance, store, name) {
        Ok(func) => Ok(func),
        Err(_) => Err(DeeError::MissingExport(GuestExport::Entrypoint)),
    }
}

/// Asks the guest's `alloc` for `size` bytes and returns where it put them.
///
/// Fails with `MissingExport` exactly when the instance exports no `alloc`
/// of type i32 -> i32; where it does, `alloc` is called on `size`, and the
/// only failure is a trap of `alloc`.
pub fn allocate(instance: &Instance, store: &mut Store<()>, size: i32) -> (r: Result<i32, DeeError>)
    requires
        instance_owner(*instance) == store_id(*old(store)),
    ensures
        r == allocation(*old(store), *instance, size),
        *final(store) == store_after_allocation(*old(store), *instance, size),
        store_id(*final(store)) == store_id(*old(store)),
{
    let alloc = match exported_func(instance, store, "alloc") {
        Ok(func) => func,
        Err(_) => {
            return Err(DeeError::MissingExport(GuestExport::Alloc));
        },
    };
    alloc_outcome(call_func(&alloc, store, size))
}

/// Finds the guest's linear memory, exported as `memory`.
///
/// Fails with `MissingExport` exactly when there is no such export.
pub fn guest_memory(instance: &Instance, store: &mut Store<()>) -> (r: Result<Memory, DeeError>)
    requires
        instance_owner(*instance) == store_id(*old(store)),
    ensures
        *final(store) == store_after_lookup(*old(store), *instance, "memory"@),
        store_id(*final(store)) == store_id(*old(store)),
        r is Ok <==> exported(*instance, "memory"@) is Memory,
        r matches Ok(memory) ==> memory == export_memory(*instance, "memory"@) && memory_owner(
            memory,
        ) == store_id(*old(store)),
        r matches Err(e) ==> e == DeeError::MissingExport(GuestExport::Memory),
{
    match exported_memory(instance, store, "memory") {
        Some(memory) => Ok(memory),
        None => Err(DeeError::MissingExport(GuestExport::Memory)),
    }
}

/// Asks the guest's `get_result_len` for the length of the result.
///
/// Fails with `MissingExport` exactly when the instance exports no
/// `get_result_len` of type () -> i32; where it does, it is called, and the
/// only failure is a trap of `get_result_len`.
pub fn result_length(instance: &Instance, store: &mut Store<()>) -> (r: Result<i32, DeeError>)
    requires
        instance_owner(*instance) == store_id(*old(store)),
    ensures
        r == length_query(*old(store), *instance),
        *final(store) == store_after_length_query(*old(store), *instance),
        store_id(*final(store)) == store_id(*old(store)),
{
    let getter = match exported_getter(instance, store, "get_result_len") {
        Ok(func) => func,
        Err(_) => {
            return Err(DeeError::MissingExport(GuestExport::ResultLen));
        },
    };
    result_length_outcome(call_getter(&getter, store))
}

/// Writes the input into guest memory at the place the guest allocated.
///
/// Succeeds exactly when the input fits between that place and the end of
/// the memory; then the memory holds the input there and is otherwise as
/// before. Otherwise nothing is written.
pub fn write_input(store: &mut Store<()>, memory: &Memory, input_ptr: i32, input: &[u8]) -> (r:
    Result<(), DeeError>)
    requires
        memory_owner(*memory) == store_id(*old(store)),
    ensures
        store_id(*final(store)) == store_id(*old(store)),
        r is Ok <==> offset_of(input_ptr) + input@.len() <= memory_contents(
            *old(store),
            *memory,
        ).len(),
        r is Ok ==> *final(store) == store_after_write(
            *old(store),
            *memory,
            offset_of(input_ptr),
            input@,
        ),
        r is Ok ==> memory_contents(*final(store), *memory) == overwritten(
            memory_contents(*old(store), *memory),
            offset_of(input_ptr),
            input@,
        ),
        r matches Err(e) ==> e == DeeError::MemoryAccess(MemoryAccess::WriteInput)
            && memory_contents(*final(store), *memory) == memory_contents(*old(store), *memory),
{
    match memory_write(memory, store, guest_offset(input_ptr), input) {
        Ok(()) => Ok(()),
        Err(_) => Err(DeeError::MemoryAccess(MemoryAccess::WriteInput)),
    }
}

/// Reads the guest's result: `result_len` bytes of guest memory from
/// `result_ptr` on.
///
/// Succeeds exactly when those bytes all lie within the memory, and then
/// returns them as they stand there. A length that reaches beyond the memory
/// is refused before anything is read.
pub fn read_result(store: &Store<()>, memory: &Memory, result_ptr: i32, result_len: i32) -> (r:
    Result<Vec<u8>, DeeError>)
    requires
        memory_owner(*memory) == store_id(*store),
    ensures
        r is Ok <==> region_in_bounds(
            result_ptr,
            result_len,
            memory_contents(*store, *memory).len() as int,
        ),
        r matches Ok(raw) ==> raw@ == memory_contents(*store, *memory).subrange(
            offset_of(result_ptr),
            offset_of(result_ptr) + offset_of(result_len),
        ),
        r matches Err(e) ==> e == DeeError::MemoryAccess(MemoryAccess::ReadResult),
{
    let region = match result_region(result_ptr, result_len, memory_size(memory, store)) {
        Ok(region) => region,
        Err(e) => {
            return Err(e);
        },
    };
    let mut raw = vec![0u8; region.len];
    match memory_read(memory, store, region.offset, raw.as_mut_slice()) {
        Ok(()) => Ok(raw),
        Err(_) => Err(DeeError::MemoryAccess(MemoryAccess::ReadResult)),
    }
}

/// The handshake with a started instance: resolves the entrypoint, writes
/// the input as JSON text, has the guest make room for it, writes it there,
/// calls the entrypoint on it, asks for the result's length and reads the
/// result.
///
/// Returns the raw result bytes, or the failure of the first step that
/// failed, as `handshake_outcome` says of the store, the instance, the
/// entrypoint's name and the input text.
pub fn handshake(store: &mut Store<()>, instance: &Instance, entrypoint: &str, input: &Value) -> (r:
    Result<Vec<u8>, DeeError>)
    requires
        instance_owner(*instance) == store_id(*old(store)),
    ensures
        match handshake_outcome(
            *old(store),
            *instance,
            entrypoint@,
            encode_utf8(json_text(*input)),
        ) {
            Ok(bytes) => r matches Ok(raw) && raw@ == bytes,
            Err(e) => r == Err::<Vec<u8>, DeeError>(e),
        },
{
    let run = resolve_entrypoint(instance, store, entrypoint)?;
    let text = input_text(input)?;
    let input_bytes = text.as_str().as_bytes();
    let size = allocation_request(input_bytes.len())?;
    let input_ptr = allocate(instance, store, size)?;
    let memory = guest_memory(instance, store)?;
    write_input(store, &memory, input_ptr, input_bytes)?;
    let result_ptr = run_entrypoint(&run, store, input_ptr)?;
    let result_len = result_length(instance, store)?;
    read_result(store, &memory, result_ptr, result_len)
}

/// Makes the execution record from the raw result bytes.
///
/// Succeeds exactly when the bytes read as a JSON value. The digest is taken
/// over the bytes as they are, not over any rewriting of the parsed value.
pub fn assemble_output(raw: &[u8]) -> (r: Result<DeeOutput, DeeError>)
    ensures
        r is Ok <==> json_value(raw@) is Some,
        r matches Ok(output) ==> is_record_of(output, raw@) && output.digest_sha384@.len() == 96,
        r matches Err(e) ==> e == DeeError::Serialization(JsonDocument::Result),
{
    let result_json = match json_from_slice(raw) {
        Ok(value) => value,
        Err(_) => {
            return Err(DeeError::Serialization(JsonDocument::Result));
        },
    };
    let digest = digest_sha384(raw);
    Ok(
        DeeOutput {
            stdout: String::new(),
            stderr: String::new(),
            result_json,
            digest_sha384: digest,
        },
    )
}

/// Runs the workload's module, given as `module_bytes`, against the input.
///
/// In order: compile the module; define the one host import,
/// `env.get_logical_time`, which returns the host's logical time as it was
/// before the run; instantiate the module in a fresh store; resolve the
/// entrypoint; write the input as JSON text; ask the guest's `alloc` for room
/// of that size; write the text into the guest's `memory` there; call the
/// entrypoint on it; ask `get_result_len` for the result's length; read that
/// many bytes from where the entrypoint pointed; parse and digest them.
///
/// What is returned is what `is_execution_of` says of the engine, the module
/// bytes, the host's logical time, the entrypoint's name and the input's
/// JSON text: the record of the bytes read where every step passes, and else
/// the failure of the first step that failed. The host is left as it was.
pub fn execute_deterministic<H: DeterministicHost + ?Sized>(
    engine: &Engine,
    host: &mut H,
    workload: &WorkloadSpec,
    module_bytes: &[u8],
) -> (r: Result<DeeOutput, DeeError>)
    ensures
        is_execution_of(
            r,
            *engine,
            module_bytes@,
            old(host).context().logical_time,
            workload.entrypoint@,
            json_text(workload.input_json),
        ),
        final(host).context() == old(host).context(),
        forall|len: nat| final(host).upcoming(len) == old(host).upcoming(len),
        r matches Ok(output) ==> exists|raw: Seq<u8>| is_record_of(output, raw),
        r matches Ok(output) ==> output.digest_sha384@.len() == 96,
        r matches Err(e) ==> e != DeeError::EngineConfig,
{
    let module = load_module(engine, module_bytes)?;
    let context = host.logical_context();
    let linker = host_linker(engine, context.logical_time)?;
    let started = start_instance(engine, &linker, &module);
    let ghost fresh = choose|fresh: Store<()>| #[trigger]
        store_engine(fresh) == *engine && is_start_of(
            started,
            instantiated(linker_constants(linker), fresh, module),
        );
    let ghost run = guest_run(
        fresh,
        module,
        context.logical_time,
        workload.entrypoint@,
        json_text(workload.input_json),
    );
    let (mut store, instance) = match started {
        Ok(started) => started,
        Err(e) => {
            let r = Err(e);
            assert(store_engine(fresh) == *engine && is_outcome_of(r, run));
            return r;
        },
    };
    let r = match handshake(
        &mut store,
        &instance,
        workload.entrypoint.as_str(),
        &workload.input_json,
    ) {
        Ok(raw) => assemble_output(raw.as_slice()),
        Err(e) => Err(e),
    };
    assert(store_engine(fresh) == *engine && is_outcome_of(r, run));
    r
}

} // verus!
