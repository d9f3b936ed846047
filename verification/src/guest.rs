//! The sandbox runtime as the orchestrator sees it: modules, linkers, stores,
//! instances, typed functions and linear memory, each reached through one
//! call of `wasmtime` whose contract says what the runtime documents.
//!
//! A store owns what is instantiated in it. The runtime panics when an
//! instance, a function or a memory is used with a store that does not own
//! it, or a linker with a store of another engine; the contracts below rule
//! those uses out.
//!
//! What the runtime answers is not worked out here but named: each answer is
//! what it is for the state of the store it was given in, and the store it
//! leaves is the next state. A store is in each of its states once, so a
//! name says of a run what it did, not what another run in another store
//! would do.

use vstd::prelude::*;
use wasmtime::{Engine, Instance, Linker, Memory, MemoryAccessError, Module, Store, Trap, TypedFunc};

verus! {

#[verifier::external_type_specification]
#[verifier::external_body]
pub struct ExModule(Module);

#[verifier::external_type_specification]
#[verifier::external_body]
#[verifier::reject_recursive_types(T)]
pub struct ExLinker<T>(Linker<T>);

#[verifier::external_type_specification]
#[verifier::external_body]
#[verifier::reject_recursive_types(T)]
pub struct ExStore<T>(Store<T>);

#[verifier::external_type_specification]
#[verifier::external_body]
pub struct ExInstance(Instance);

#[verifier::external_type_specification]
#[verifier::external_body]
#[verifier::reject_recursive_types(Params)]
#[verifier::reject_recursive_types(Results)]
pub struct ExTypedFunc<Params, Results>(TypedFunc<Params, Results>);

#[verifier::external_type_specification]
#[verifier::external_body]
pub struct ExMemory(Memory);

#[verifier::external_type_specification]
#[verifier::external_body]
pub struct ExMemoryAccessError(MemoryAccessError);

/// The engine that a linker defines its functions for.
pub uninterp spec fn linker_engine(linker: Linker<()>) -> Engine;

/// Whether a linker is as `Linker::new` made it, but for constant functions
/// defined since: it holds nothing that a store owns, and it refuses to
/// define a name twice.
pub uninterp spec fn linker_is_plain(linker: Linker<()>) -> bool;

/// The constant functions that a plain linker offers to the modules it
/// instantiates: the value each returns, by namespace and name.
pub uninterp spec fn linker_constants(linker: Linker<()>) -> Map<(Seq<char>, Seq<char>), u64>;

/// The engine that a store belongs to.
pub uninterp spec fn store_engine(store: Store<()>) -> Engine;

/// What tells one store from every other.
pub uninterp spec fn store_id(store: Store<()>) -> int;

/// The store that owns an instance.
pub uninterp spec fn instance_owner(instance: Instance) -> int;

/// What an instance offers under a name, as far as the orchestrator has a
/// use for it.
pub enum ExportKind {
    /// A function of type i32 -> i32.
    Function,
    /// A function of type () -> i32.
    Getter,
    /// A linear memory that is not shared between threads.
    Memory,
    /// Nothing, or something else.
    Other,
}

/// What `instance` exports under `name`.
pub uninterp spec fn exported(instance: Instance, name: Seq<char>) -> ExportKind;

/// The function of type i32 -> i32 that `instance` exports under `name`,
/// where it exports one.
pub uninterp spec fn export_func(instance: Instance, name: Seq<char>) -> TypedFunc<i32, i32>;

/// The function of type () -> i32 that `instance` exports under `name`,
/// where it exports one.
pub uninterp spec fn export_getter(instance: Instance, name: Seq<char>) -> TypedFunc<(), i32>;

/// The memory that `instance` exports under `name`, where it exports one.
pub uninterp spec fn export_memory(instance: Instance, name: Seq<char>) -> Memory;

/// The store as a look-up of `name` among the exports of `instance` leaves
/// it. The guest's memories, globals and tables are as before; the store has
/// noted what was looked up.
pub uninterp spec fn store_after_lookup(store: Store<()>, instance: Instance, name: Seq<char>) -> Store<()>;

/// The module that the runtime makes of `bytes` for `engine`; `None` where it
/// refuses them. The runtime documents its refusals as matters of the bytes
/// and of the engine's configuration.
pub uninterp spec fn compiled(engine: Engine, bytes: Seq<u8>) -> Option<Module>;

/// How an instantiation ended: the instance or the runtime's error, and the
/// store as it was left.
pub struct Instantiation {
    pub result: Result<Instance, wasmtime::Error>,
    pub store: Store<()>,
}

/// How instantiating `module` in `store` ends for a plain linker that offers
/// `constants`.
pub uninterp spec fn instantiated(
    constants: Map<(Seq<char>, Seq<char>), u64>,
    store: Store<()>,
    module: Module,
) -> Instantiation;

/// Whether a runtime error is a trap of guest code.
pub uninterp spec fn is_trap_error(error: wasmtime::Error) -> bool;

/// How a call of a guest function ended: what it returned, if it completed,
/// and the store as it was left.
pub struct CallOutcome {
    pub returned: Option<i32>,
    pub store: Store<()>,
}

/// How calling `func` on `arg` ends in this state of the store.
pub uninterp spec fn call_outcome(store: Store<()>, func: TypedFunc<i32, i32>, arg: i32) -> CallOutcome;

/// How calling `func` ends in this state of the store.
pub uninterp spec fn getter_outcome(store: Store<()>, func: TypedFunc<(), i32>) -> CallOutcome;

/// The store after `bytes` were written into `memory` from `offset` on.
pub uninterp spec fn store_after_write(
    store: Store<()>,
    memory: Memory,
    offset: int,
    bytes: Seq<u8>,
) -> Store<()>;

/// The store that owns a function of type i32 -> i32.
pub uninterp spec fn func_owner(func: TypedFunc<i32, i32>) -> int;

/// The store that owns a function of type () -> i32.
pub uninterp spec fn getter_owner(func: TypedFunc<(), i32>) -> int;

/// The store that owns a memory.
pub uninterp spec fn memory_owner(memory: Memory) -> int;

/// The bytes of a linear memory as they stand in its store.
pub uninterp spec fn memory_contents(store: Store<()>, memory: Memory) -> Seq<u8>;

/// What a linker offers that defines nothing.
pub open spec fn no_constants() -> Map<(Seq<char>, Seq<char>), u64> {
    Map::empty()
}

/// `bytes` written over `contents` from `offset` on.
pub open spec fn overwritten(contents: Seq<u8>, offset: int, bytes: Seq<u8>) -> Seq<u8> {
    contents.subrange(0, offset) + bytes + contents.subrange(
        offset + bytes.len(),
        contents.len() as int,
    )
}

/// Writing over part of a memory keeps its length, puts the bytes where they
/// were written, and leaves every other byte as it was.
pub proof fn lemma_overwritten(contents: Seq<u8>, offset: int, bytes: Seq<u8>)
    requires
        0 <= offset,
        offset + bytes.len() <= contents.len(),
    ensures
        overwritten(contents, offset, bytes).len() == contents.len(),
        overwritten(contents, offset, bytes).subrange(offset, offset + bytes.len()) == bytes,
        forall|i: int|
            0 <= i < contents.len() && !(offset <= i < offset + bytes.len()) ==> overwritten(
                contents,
                offset,
                bytes,
            )[i] == contents[i],
{
    let after = overwritten(contents, offset, bytes);
    assert(after.subrange(offset, offset + bytes.len()) =~= bytes);
}

/// `Module::new`: compiles and validates a module for `engine`. Whether the
/// bytes are accepted, and what module they make, is settled by the bytes
/// and the engine; that they are accepted is not promised.
#[verifier::external_body]
pub(crate) fn compile_module(engine: &Engine, bytes: &[u8]) -> (r: Result<Module, wasmtime::Error>)
    ensures
        r matches Ok(module) ==> compiled(*engine, bytes@) == Some(module),
        r is Err ==> compiled(*engine, bytes@) is None,
{
    Module::new(engine, bytes)
}

/// `Linker::new`: a plain linker for `engine` that defines nothing yet.
#[verifier::external_body]
pub(crate) fn new_linker(engine: &Engine) -> (linker: Linker<()>)
    ensures
        linker_engine(linker) == *engine,
        linker_is_plain(linker),
        linker_constants(linker) == no_constants(),
{
    Linker::new(engine)
}

/// `Linker::func_wrap` with a function of no arguments that returns `value`.
/// On a plain linker it succeeds exactly when the name is not yet defined in
/// that namespace, and then adds the definition; on failure the linker is
/// unchanged. Either way the linker stays plain and keeps its engine.
#[verifier::external_body]
pub(crate) fn define_constant(
    linker: &mut Linker<()>,
    module: &str,
    name: &str,
    value: u64,
) -> (r: Result<(), wasmtime::Error>)
    requires
        linker_is_plain(*old(linker)),
    ensures
        linker_engine(*final(linker)) == linker_engine(*old(linker)),
        linker_is_plain(*final(linker)),
        r is Ok <==> !linker_constants(*old(linker)).contains_key((module@, name@)),
        r is Ok ==> linker_constants(*final(linker)) == linker_constants(*old(linker)).insert(
            (module@, name@),
            value,
        ),
        r is Err ==> linker_constants(*final(linker)) == linker_constants(*old(linker)),
{
    linker.func_wrap(module, name, move || -> u64 { value }).map(|_| ())
}

/// `Store::new` with no host data: a fresh store of `engine`.
#[verifier::external_body]
pub(crate) fn new_store(engine: &Engine) -> (store: Store<()>)
    ensures
        store_engine(store) == *engine,
{
    Store::new(engine, ())
}

/// `Linker::instantiate`: how it ends is settled by what the plain linker
/// offers, the state of the store and the module. An instance, when there is
/// one, is owned by the store, which stays the store it was.
#[verifier::external_body]
pub(crate) fn instantiate(linker: &Linker<()>, store: &mut Store<()>, module: &Module) -> (r:
    Result<Instance, wasmtime::Error>)
    requires
        linker_is_plain(*linker),
        linker_engine(*linker) == store_engine(*old(store)),
    ensures
        r == instantiated(linker_constants(*linker), *old(store), *module).result,
        *final(store) == instantiated(linker_constants(*linker), *old(store), *module).store,
        store_id(*final(store)) == store_id(*old(store)),
        store_engine(*final(store)) == store_engine(*old(store)),
        r matches Ok(instance) ==> instance_owner(instance) == store_id(*old(store)),
{
    linker.instantiate(store, module)
}

/// `Error::downcast_ref::<Trap>`: whether a runtime error is a trap of guest
/// code.
#[verifier::external_body]
pub(crate) fn is_trap(error: &wasmtime::Error) -> (trapped: bool)
    ensures
        trapped == is_trap_error(*error),
{
    error.downcast_ref::<Trap>().is_some()
}

/// `Instance::get_typed_func` at type i32 -> i32: succeeds exactly when the
/// instance exports a function of that type under `name`, and then returns
/// that function, which the store owns. The store notes the look-up.
#[verifier::external_body]
pub(crate) fn exported_func(instance: &Instance, store: &mut Store<()>, name: &str) -> (r: Result<
    TypedFunc<i32, i32>,
    wasmtime::Error,
>)
    requires
        instance_owner(*instance) == store_id(*old(store)),
    ensures
        *final(store) == store_after_lookup(*old(store), *instance, name@),
        store_id(*final(store)) == store_id(*old(store)),
        r is Ok <==> exported(*instance, name@) is Function,
        r matches Ok(func) ==> func == export_func(*instance, name@),
        r matches Ok(func) ==> func_owner(func) == store_id(*old(store)),
{
    instance.get_typed_func::<i32, i32>(store, name)
}

/// `Instance::get_typed_func` at type () -> i32: as above.
#[verifier::external_body]
pub(crate) fn exported_getter(instance: &Instance, store: &mut Store<()>, name: &str) -> (r:
    Result<TypedFunc<(), i32>, wasmtime::Error>)
    requires
        instance_owner(*instance) == store_id(*old(store)),
    ensures
        *final(store) == store_after_lookup(*old(store), *instance, name@),
        store_id(*final(store)) == store_id(*old(store)),
        r is Ok <==> exported(*instance, name@) is Getter,
        r matches Ok(func) ==> func == export_getter(*instance, name@),
        r matches Ok(func) ==> getter_owner(func) == store_id(*old(store)),
{
    instance.get_typed_func::<(), i32>(store, name)
}

/// `Instance::get_memory`: finds a memory exactly when the instance exports
/// one under `name`, and then returns that memory, which the store owns. The
/// store notes the look-up.
#[verifier::external_body]
pub(crate) fn exported_memory(instance: &Instance, store: &mut Store<()>, name: &str) -> (r:
    Option<Memory>)
    requires
        instance_owner(*instance) == store_id(*old(store)),
    ensures
        *final(store) == store_after_lookup(*old(store), *instance, name@),
        store_id(*final(store)) == store_id(*old(store)),
        r is Some <==> exported(*instance, name@) is Memory,
        r matches Some(memory) ==> memory == export_memory(*instance, name@),
        r matches Some(memory) ==> memory_owner(memory) == store_id(*old(store)),
{
    instance.get_memory(store, name)
}

/// `TypedFunc::call` at type i32 -> i32: runs guest code, which may do to
/// the store's memories whatever it likes. What it returns and how it leaves
/// the store is settled by the state of the store, the function and the
/// argument. The store stays the store it was.
#[verifier::external_body]
pub(crate) fn call_func(func: &TypedFunc<i32, i32>, store: &mut Store<()>, arg: i32) -> (r: Result<
    i32,
    wasmtime::Error,
>)
    requires
        func_owner(*func) == store_id(*old(store)),
    ensures
        r matches Ok(value) ==> call_outcome(*old(store), *func, arg).returned == Some(value),
        r is Err ==> call_outcome(*old(store), *func, arg).returned is None,
        *final(store) == call_outcome(*old(store), *func, arg).store,
        store_id(*final(store)) == store_id(*old(store)),
{
    func.call(store, arg)
}

/// `TypedFunc::call` at type () -> i32: as above.
#[verifier::external_body]
pub(crate) fn call_getter(func: &TypedFunc<(), i32>, store: &mut Store<()>) -> (r: Result<
    i32,
    wasmtime::Error,
>)
    requires
        getter_owner(*func) == store_id(*old(store)),
    ensures
        r matches Ok(value) ==> getter_outcome(*old(store), *func).returned == Some(value),
        r is Err ==> getter_outcome(*old(store), *func).returned is None,
        *final(store) == getter_outcome(*old(store), *func).store,
        store_id(*final(store)) == store_id(*old(store)),
{
    func.call(store, ())
}

/// `Memory::data_size`: the length of the memory in bytes.
#[verifier::external_body]
pub(crate) fn memory_size(memory: &Memory, store: &Store<()>) -> (size: usize)
    requires
        memory_owner(*memory) == store_id(*store),
    ensures
        size == memory_contents(*store, *memory).len(),
{
    memory.data_size(store)
}

/// `Memory::write`: succeeds exactly when `offset + data.len()` does not
/// exceed the memory; then `data` stands in the memory from `offset` on and
/// the rest is as before. On failure nothing is written.
#[verifier::external_body]
pub(crate) fn memory_write(memory: &Memory, store: &mut Store<()>, offset: usize, data: &[u8]) -> (r:
    Result<(), MemoryAccessError>)
    requires
        memory_owner(*memory) == store_id(*old(store)),
    ensures
        store_id(*final(store)) == store_id(*old(store)),
        r is Ok <==> offset + data@.len() <= memory_contents(*old(store), *memory).len(),
        r is Ok ==> *final(store) == store_after_write(*old(store), *memory, offset as int, data@),
        r is Ok ==> memory_contents(*final(store), *memory) == overwritten(
            memory_contents(*old(store), *memory),
            offset as int,
            data@,
        ),
        r is Err ==> memory_contents(*final(store), *memory) == memory_contents(
            *old(store),
            *memory,
        ),
{
    memory.write(store, offset, data)
}

/// `Memory::read`: succeeds exactly when `offset + buffer.len()` does not
/// exceed the memory; then the buffer holds the memory's bytes from `offset`
/// on. On failure the buffer is left as it was.
#[verifier::external_body]
pub(crate) fn memory_read(memory: &Memory, store: &Store<()>, offset: usize, buffer: &mut [u8]) -> (r:
    Result<(), MemoryAccessError>)
    requires
        memory_owner(*memory) == store_id(*store),
    ensures
        final(buffer)@.len() == old(buffer)@.len(),
        r is Ok <==> offset + old(buffer)@.len() <= memory_contents(*store, *memory).len(),
        r is Ok ==> final(buffer)@ == memory_contents(*store, *memory).subrange(
            offset as int,
            offset + old(buffer)@.len(),
        ),
        r is Err ==> final(buffer)@ == old(buffer)@,
{
    memory.read(store, offset, buffer)
}

} // verus!
