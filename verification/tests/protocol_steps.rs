use dee::exec::{
    alloc_outcome, allocate, entrypoint_outcome, guest_memory, handshake, host_linker, input_text,
    load_module, module_outcome, resolve_entrypoint, result_length, result_length_outcome,
    run_entrypoint, start_instance,
};
use dee::{create_deterministic_engine, DeeError, GuestCall, GuestExport, MemoryAccess};
use serde_json::Value;
use wasmtime::{Engine, Instance, Module, Store};

const ADDER: &str = r#"
(module
  (memory (export "memory") 1)
  (func (export "alloc") (param i32) (result i32) (i32.add (local.get 0) (i32.const 1000)))
  (func (export "run") (param i32) (result i32) (i32.mul (local.get 0) (i32.const 2)))
  (func (export "get_result_len") (result i32) (i32.const 17))
  (func (export "wide") (param i64) (result i32) (i32.const 0))
  (global (export "level") i32 (i32.const 3)))
"#;

const BARE: &str = "(module)";

const TRAPPING: &str = r#"
(module
  (memory (export "memory") 1)
  (func (export "alloc") (param i32) (result i32) unreachable)
  (func (export "run") (param i32) (result i32) unreachable)
  (func (export "get_result_len") (result i32) unreachable))
"#;

fn started(wat: &str) -> (Engine, Store<()>, Instance) {
    let engine = create_deterministic_engine().unwrap();
    let module = load_module(&engine, wat.as_bytes()).unwrap();
    let linker = host_linker(&engine, 1).unwrap();
    let (store, instance) = start_instance(&engine, &linker, &module).unwrap();
    (engine, store, instance)
}

#[test]
fn module_loads_from_text_and_from_binary() {
    let engine = create_deterministic_engine().unwrap();
    assert!(load_module(&engine, ADDER.as_bytes()).is_ok());
    assert!(load_module(&engine, &[0x00, 0x61, 0x73, 0x6d, 0x01, 0x00, 0x00, 0x00]).is_ok());
}

#[test]
fn what_is_no_module_does_not_load() {
    let engine = create_deterministic_engine().unwrap();
    assert_eq!(load_module(&engine, b"").err(), Some(DeeError::ModuleLoad));
    assert_eq!(load_module(&engine, b"(module").err(), Some(DeeError::ModuleLoad));
    assert_eq!(load_module(&engine, &[0x00, 0x61, 0x73, 0x6d]).err(), Some(DeeError::ModuleLoad));
    let ill_typed = "(module (func (result i32) (i64.const 0)))";
    assert_eq!(load_module(&engine, ill_typed.as_bytes()).err(), Some(DeeError::ModuleLoad));
}

#[test]
fn instance_starts_when_its_imports_are_met() {
    let engine = create_deterministic_engine().unwrap();
    let linker = host_linker(&engine, 1).unwrap();
    let with_clock = "(module (import \"env\" \"get_logical_time\" (func (result i64))))";
    for wat in [BARE, ADDER, with_clock] {
        let module = load_module(&engine, wat.as_bytes()).unwrap();
        assert!(start_instance(&engine, &linker, &module).is_ok());
    }
}

#[test]
fn instance_does_not_start_on_unmet_imports_or_a_trap() {
    let engine = create_deterministic_engine().unwrap();
    let linker = host_linker(&engine, 1).unwrap();
    let cases = [
        ("(module (import \"env\" \"fill_rng\" (func (param i32 i32))))", DeeError::Link),
        ("(module (import \"env\" \"get_logical_time\" (func (param i32))))", DeeError::Link),
        ("(module (import \"env\" \"memory\" (memory 1)))", DeeError::Link),
        ("(module (func $boot unreachable) (start $boot))", DeeError::Trap(GuestCall::Start)),
    ];
    for (wat, expected) in cases {
        let module = load_module(&engine, wat.as_bytes()).unwrap();
        assert_eq!(start_instance(&engine, &linker, &module).err(), Some(expected));
    }
}

#[test]
fn entrypoint_is_resolved_by_name_and_type() {
    let missing = Some(DeeError::MissingExport(GuestExport::Entrypoint));
    let (_engine, mut store, instance) = started(ADDER);
    assert!(resolve_entrypoint(&instance, &mut store, "run").is_ok());
    assert!(resolve_entrypoint(&instance, &mut store, "alloc").is_ok());
    assert_eq!(resolve_entrypoint(&instance, &mut store, "walk").err(), missing);
    assert_eq!(resolve_entrypoint(&instance, &mut store, "").err(), missing);
    assert_eq!(resolve_entrypoint(&instance, &mut store, "wide").err(), missing);
    assert_eq!(resolve_entrypoint(&instance, &mut store, "get_result_len").err(), missing);
    assert_eq!(resolve_entrypoint(&instance, &mut store, "memory").err(), missing);
    assert_eq!(resolve_entrypoint(&instance, &mut store, "level").err(), missing);
}

#[test]
fn entrypoint_is_called_on_the_input_pointer() {
    let (_engine, mut store, instance) = started(ADDER);
    let run = resolve_entrypoint(&instance, &mut store, "run").unwrap();
    assert_eq!(run_entrypoint(&run, &mut store, 21), Ok(42));
    assert_eq!(run_entrypoint(&run, &mut store, -4), Ok(-8));
}

#[test]
fn entrypoint_that_traps_is_a_trap() {
    let (_engine, mut store, instance) = started(TRAPPING);
    let run = resolve_entrypoint(&instance, &mut store, "run").unwrap();
    assert_eq!(run_entrypoint(&run, &mut store, 21), Err(DeeError::Trap(GuestCall::Entrypoint)));
}

#[test]
fn alloc_is_asked_for_the_given_size() {
    let (_engine, mut store, instance) = started(ADDER);
    assert_eq!(allocate(&instance, &mut store, 8), Ok(1008));
    assert_eq!(allocate(&instance, &mut store, 0), Ok(1000));
    assert_eq!(allocate(&instance, &mut store, -1), Ok(999));
}

#[test]
fn alloc_that_is_absent_or_traps_is_told_apart() {
    let (_engine, mut store, instance) = started(BARE);
    assert_eq!(allocate(&instance, &mut store, 8), Err(DeeError::MissingExport(GuestExport::Alloc)));
    drop(store);
    let (_engine, mut store, instance) = started(TRAPPING);
    assert_eq!(allocate(&instance, &mut store, 8), Err(DeeError::Trap(GuestCall::Alloc)));
}

#[test]
fn memory_is_found_under_its_name_only() {
    let (_engine, mut store, instance) = started(ADDER);
    let memory = guest_memory(&instance, &mut store).unwrap();
    assert_eq!(memory.data_size(&store), 65_536);
}

#[test]
fn memory_that_is_absent_or_misnamed_is_missing() {
    let (_engine, mut store, instance) = started(BARE);
    assert_eq!(
        guest_memory(&instance, &mut store).err(),
        Some(DeeError::MissingExport(GuestExport::Memory))
    );
    let misnamed = "(module (memory (export \"mem\") 1) (func (export \"memory\")))";
    let (_engine, mut store, instance) = started(misnamed);
    assert_eq!(
        guest_memory(&instance, &mut store).err(),
        Some(DeeError::MissingExport(GuestExport::Memory))
    );
}

#[test]
fn result_length_is_what_the_guest_reports() {
    let (_engine, mut store, instance) = started(ADDER);
    assert_eq!(result_length(&instance, &mut store), Ok(17));
}

#[test]
fn result_length_that_is_absent_or_traps_is_told_apart() {
    let (_engine, mut store, instance) = started(BARE);
    assert_eq!(
        result_length(&instance, &mut store),
        Err(DeeError::MissingExport(GuestExport::ResultLen))
    );
    drop(store);
    let (_engine, mut store, instance) = started(TRAPPING);
    assert_eq!(result_length(&instance, &mut store), Err(DeeError::Trap(GuestCall::ResultLen)));
    drop(store);
    let of_other_type = "(module (func (export \"get_result_len\") (result i64) (i64.const 1)))";
    let (_engine, mut store, instance) = started(of_other_type);
    assert_eq!(
        result_length(&instance, &mut store),
        Err(DeeError::MissingExport(GuestExport::ResultLen))
    );
}

#[test]
fn input_text_is_compact_json() {
    let value: Value = serde_json::from_str(" { \"a\" : 1 } ").unwrap();
    assert_eq!(input_text(&value), Ok(String::from("{\"a\":1}")));
    assert_eq!(input_text(&value).unwrap().len(), 8 - 1);
    assert_eq!(input_text(&Value::Null), Ok(String::from("null")));
    let nested: Value = serde_json::from_str("[1, [2, {\"b\": \"c d\"}], -3.5e2, true]").unwrap();
    assert_eq!(input_text(&nested), Ok(String::from("[1,[2,{\"b\":\"c d\"}],-350.0,true]")));
}

#[test]
fn loading_hands_on_the_module_that_was_compiled() {
    let engine = create_deterministic_engine().unwrap();
    let wat = "(module (func (export \"seven\") (result i32) (i32.const 7)))";
    let module = module_outcome(Module::new(&engine, wat)).unwrap();
    let names: Vec<String> = module.exports().map(|export| String::from(export.name())).collect();
    assert_eq!(names, vec![String::from("seven")]);
    let mut store = Store::new(&engine, ());
    let instance = Instance::new(&mut store, &module, &[]).unwrap();
    let seven = instance.get_typed_func::<(), i32>(&mut store, "seven").unwrap();
    assert_eq!(seven.call(&mut store, ()).unwrap(), 7);
}

#[test]
fn loading_turns_a_refusal_into_a_load_error() {
    let engine = create_deterministic_engine().unwrap();
    assert_eq!(module_outcome(Module::new(&engine, "(module")).err(), Some(DeeError::ModuleLoad));
    assert_eq!(module_outcome(Module::new(&engine, [0u8; 4])).err(), Some(DeeError::ModuleLoad));
}

#[test]
fn entrypoint_outcome_is_the_integer_the_guest_returned() {
    for value in [0, 1, 42, 1024, -1, i32::MAX, i32::MIN] {
        assert_eq!(entrypoint_outcome(Ok(value)), Ok(value));
    }
}

#[test]
fn entrypoint_outcome_of_a_failed_call_is_a_trap() {
    let engine = create_deterministic_engine().unwrap();
    let wat = "(module (func (export \"run\") (param i32) (result i32) unreachable))";
    let module = Module::new(&engine, wat).unwrap();
    let mut store = Store::new(&engine, ());
    let instance = Instance::new(&mut store, &module, &[]).unwrap();
    let run = instance.get_typed_func::<i32, i32>(&mut store, "run").unwrap();
    let called = run.call(&mut store, 5);
    assert!(called.is_err());
    assert_eq!(entrypoint_outcome(called), Err(DeeError::Trap(GuestCall::Entrypoint)));
}

#[test]
fn entrypoint_result_depends_on_its_argument() {
    let (_engine, mut store, instance) = started(ADDER);
    let run = resolve_entrypoint(&instance, &mut store, "run").unwrap();
    assert_eq!(run_entrypoint(&run, &mut store, 0), Ok(0));
    assert_eq!(run_entrypoint(&run, &mut store, 1), Ok(2));
    assert_eq!(run_entrypoint(&run, &mut store, 1000), Ok(2000));
}

const ECHO_IN_PLACE: &str = r#"
(module
  (memory (export "memory") 1)
  (global $len (mut i32) (i32.const 0))
  (func (export "alloc") (param i32) (result i32)
    (global.set $len (local.get 0))
    (i32.const 4096))
  (func (export "run") (param i32) (result i32) (local.get 0))
  (func (export "get_result_len") (result i32) (global.get $len)))
"#;

fn trapped_call() -> Result<i32, wasmtime::Error> {
    let engine = create_deterministic_engine().unwrap();
    let wat = "(module (func (export \"f\") (param i32) (result i32) unreachable))";
    let module = Module::new(&engine, wat).unwrap();
    let mut store = Store::new(&engine, ());
    let instance = Instance::new(&mut store, &module, &[]).unwrap();
    let f = instance.get_typed_func::<i32, i32>(&mut store, "f").unwrap();
    f.call(&mut store, 0)
}

#[test]
fn alloc_outcome_is_the_place_the_guest_returned_or_a_trap() {
    for value in [0, 8, 4096, -1, i32::MAX, i32::MIN] {
        assert_eq!(alloc_outcome(Ok(value)), Ok(value));
    }
    assert_eq!(alloc_outcome(trapped_call()), Err(DeeError::Trap(GuestCall::Alloc)));
}

#[test]
fn result_length_outcome_is_the_length_the_guest_returned_or_a_trap() {
    for value in [0, 7, 65_536, -1, i32::MAX, i32::MIN] {
        assert_eq!(result_length_outcome(Ok(value)), Ok(value));
    }
    assert_eq!(
        result_length_outcome(trapped_call()),
        Err(DeeError::Trap(GuestCall::ResultLen))
    );
}

#[test]
fn handshake_hands_the_input_text_over_and_reads_the_result_back() {
    let (_engine, mut store, instance) = started(ECHO_IN_PLACE);
    let input: Value = serde_json::from_str("{ \"a\" : [1, 2] }").unwrap();
    let raw = handshake(&mut store, &instance, "run", &input).unwrap();
    assert_eq!(raw, b"{\"a\":[1,2]}".to_vec());
    let memory = instance.get_memory(&mut store, "memory").unwrap();
    assert_eq!(&memory.data(&store)[4096..4107], b"{\"a\":[1,2]}");
    assert_eq!(memory.data(&store)[4095], 0);
    assert_eq!(memory.data(&store)[4107], 0);
}

#[test]
fn handshake_asks_alloc_for_the_length_of_the_text() {
    let (_engine, mut store, instance) = started(ECHO_IN_PLACE);
    let raw = handshake(&mut store, &instance, "run", &Value::Bool(false)).unwrap();
    assert_eq!(raw.len(), 5);
    let text: Value = Value::String(String::from("\u{00fc}"));
    let raw = handshake(&mut store, &instance, "run", &text).unwrap();
    assert_eq!(raw, "\"\u{00fc}\"".as_bytes().to_vec());
    assert_eq!(raw.len(), 4);
}

#[test]
fn handshake_reads_where_the_entrypoint_pointed() {
    let wat = "(module (memory (export \"memory\") 1)
        (data (i32.const 64) \"[1, 2]\")
        (func (export \"alloc\") (param i32) (result i32) (i32.const 8))
        (func (export \"run\") (param i32) (result i32) (i32.const 64))
        (func (export \"get_result_len\") (result i32) (i32.const 6)))";
    let (_engine, mut store, instance) = started(wat);
    let input: Value = serde_json::from_str("0").unwrap();
    assert_eq!(handshake(&mut store, &instance, "run", &input), Ok(b"[1, 2]".to_vec()));
}

#[test]
fn handshake_ends_at_the_first_step_that_fails() {
    let input = Value::Null;
    let (_engine, mut store, instance) = started(BARE);
    assert_eq!(
        handshake(&mut store, &instance, "run", &input),
        Err(DeeError::MissingExport(GuestExport::Entrypoint))
    );
    drop(store);
    let (_engine, mut store, instance) = started(TRAPPING);
    assert_eq!(
        handshake(&mut store, &instance, "run", &input),
        Err(DeeError::Trap(GuestCall::Alloc))
    );
    drop(store);
    let beyond = "(module (memory (export \"memory\") 1)
        (data (i32.const 65533) \"[1]\")
        (func (export \"alloc\") (param i32) (result i32) (i32.const 0))
        (func (export \"run\") (param i32) (result i32) (i32.const 65533))
        (func (export \"get_result_len\") (result i32) (i32.const 4)))";
    let (_engine, mut store, instance) = started(beyond);
    assert_eq!(
        handshake(&mut store, &instance, "run", &input),
        Err(DeeError::MemoryAccess(MemoryAccess::ReadResult))
    );
}

#[test]
fn input_text_never_fails() {
    let values = ["null", "1e400", "-0.0", "[[[[[[]]]]]]", "{\"\":{\"\":\"\"}}", "\"\\u0000\""];
    for text in values {
        if let Ok(value) = serde_json::from_str::<Value>(text) {
            assert!(input_text(&value).is_ok());
        }
    }
    let not_finite = serde_json::Number::from_f64(f64::NAN);
    assert!(not_finite.is_none());
}
