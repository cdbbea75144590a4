use modlink::exports::{ExportEntry, ExportTable};
use modlink::host::Host;
use modlink::loader::create_server;
use modlink::module::LoadedModule;
use modlink::registry::Registry;
use modlink::server::Server;
use modlink::values::{CallError, ExportKind, LinkError, ServerError, Value};

const IDENT: &str = r#"(module (func (export "return_arg") (param i32) (result i32) local.get 0))"#;

const DOUBLER: &str = r#"(module
  (func (export "return_double_arg") (param i32) (result i32)
    local.get 0
    i32.const 2
    i32.mul))"#;

const FORWARDER: &str = r#"(module
  (import "https://modules.test/a" "return_double_arg" (func $d (param i32) (result i32)))
  (func (export "return_double_arg") (param i32) (result i32)
    local.get 0
    call $d))"#;

fn one(name: &str, wat: &str) -> Vec<(String, Vec<u8>)> {
    vec![(name.to_string(), wat.as_bytes().to_vec())]
}

#[test]
fn identity_round_trip() {
    let mut host = Host::new();
    let registry = Registry::new(&host);
    let mut ctx = host.context();
    let server = create_server(&mut ctx, &registry, &one("https://modules.test/ident", IDENT)).unwrap();
    registry.add(server).unwrap();
    let out = registry
        .run(
            &mut ctx,
            &"https://modules.test/ident".to_string(),
            &"return_arg".to_string(),
            &vec![Value::I32(222)],
        )
        .unwrap();
    assert_eq!(out, vec![Value::I32(222)]);
}

#[test]
fn float_bits_round_trip() {
    let mut host = Host::new();
    let registry = Registry::new(&host);
    let mut ctx = host.context();
    let wat = r#"(module (func (export "fid") (param f32) (result f32) local.get 0))"#;
    let server = create_server(&mut ctx, &registry, &one("https://modules.test/f", wat)).unwrap();
    registry.add(server).unwrap();
    let bits = 2.5f32.to_bits();
    let out = registry
        .run(&mut ctx, &"https://modules.test/f".to_string(), &"fid".to_string(), &vec![
            Value::F32Bits(bits),
        ])
        .unwrap();
    assert_eq!(out, vec![Value::F32Bits(bits)]);
}

#[test]
fn cross_module_routing_provider_added_first() {
    let mut host = Host::new();
    let registry = Registry::new(&host);
    let mut ctx = host.context();
    let a = create_server(&mut ctx, &registry, &one("https://modules.test/a", DOUBLER)).unwrap();
    registry.add(a).unwrap();
    let b = create_server(&mut ctx, &registry, &one("https://modules.test/b", FORWARDER)).unwrap();
    registry.add(b).unwrap();
    let out = registry
        .run(
            &mut ctx,
            &"https://modules.test/b".to_string(),
            &"return_double_arg".to_string(),
            &vec![Value::I32(111)],
        )
        .unwrap();
    assert_eq!(out, vec![Value::I32(222)]);
}

#[test]
fn cross_module_routing_provider_added_last() {
    // The import's provider does not exist when the importer is instantiated;
    // it exists by the time the call happens, which is all late binding needs.
    let mut host = Host::new();
    let registry = Registry::new(&host);
    let mut ctx = host.context();
    let b = create_server(&mut ctx, &registry, &one("https://modules.test/b", FORWARDER)).unwrap();
    registry.add(b).unwrap();
    let a = create_server(&mut ctx, &registry, &one("https://modules.test/a", DOUBLER)).unwrap();
    registry.add(a).unwrap();
    let out = registry
        .run(
            &mut ctx,
            &"https://modules.test/b".to_string(),
            &"return_double_arg".to_string(),
            &vec![Value::I32(111)],
        )
        .unwrap();
    assert_eq!(out, vec![Value::I32(222)]);
}

#[test]
fn missing_provider_fails_until_added() {
    let mut host = Host::new();
    let registry = Registry::new(&host);
    let mut ctx = host.context();
    let b = create_server(&mut ctx, &registry, &one("https://modules.test/b", FORWARDER)).unwrap();
    registry.add(b).unwrap();
    let early = registry.run(
        &mut ctx,
        &"https://modules.test/b".to_string(),
        &"return_double_arg".to_string(),
        &vec![Value::I32(7)],
    );
    assert!(matches!(early, Err(CallError::ExecutionFault(_))));
    let a = create_server(&mut ctx, &registry, &one("https://modules.test/a", DOUBLER)).unwrap();
    registry.add(a).unwrap();
    let late = registry
        .run(
            &mut ctx,
            &"https://modules.test/b".to_string(),
            &"return_double_arg".to_string(),
            &vec![Value::I32(7)],
        )
        .unwrap();
    assert_eq!(late, vec![Value::I32(14)]);
}

#[test]
fn first_match_wins_on_name_collision() {
    let mut host = Host::new();
    let registry = Registry::new(&host);
    let mut ctx = host.context();
    let first = create_server(&mut ctx, &registry, &one("https://modules.test/dup", IDENT)).unwrap();
    registry.add(first).unwrap();
    let second = create_server(
        &mut ctx,
        &registry,
        &one(
            "https://modules.test/dup",
            r#"(module (func (export "return_arg") (param i32) (result i32)
                local.get 0
                i32.const 2
                i32.mul))"#,
        ),
    )
    .unwrap();
    registry.add(second).unwrap();
    // The earliest-added server providing the name wins, call after call.
    for _ in 0..3 {
        let out = registry
            .run(
                &mut ctx,
                &"https://modules.test/dup".to_string(),
                &"return_arg".to_string(),
                &vec![Value::I32(9)],
            )
            .unwrap();
        assert_eq!(out, vec![Value::I32(9)]);
    }
}

#[test]
fn all_added_servers_stay_retrievable() {
    let mut host = Host::new();
    let registry = Registry::new(&host);
    let mut ctx = host.context();
    let names = [
        "https://modules.test/m1",
        "https://modules.test/m2",
        "https://modules.test/m3",
        "https://modules.test/m4",
    ];
    for name in names {
        let s = create_server(&mut ctx, &registry, &one(name, IDENT)).unwrap();
        registry.add(s).unwrap();
    }
    for (i, name) in names.iter().enumerate() {
        let v = i as i32;
        let out = registry
            .run(&mut ctx, &name.to_string(), &"return_arg".to_string(), &vec![Value::I32(v)])
            .unwrap();
        assert_eq!(out, vec![Value::I32(v)]);
    }
}

#[test]
fn module_not_found() {
    let mut host = Host::new();
    let registry = Registry::new(&host);
    let mut ctx = host.context();
    let r = registry.run(
        &mut ctx,
        &"https://modules.test/absent".to_string(),
        &"return_arg".to_string(),
        &vec![Value::I32(1)],
    );
    assert!(matches!(r, Err(CallError::ModuleNotFound)));
}

#[test]
fn function_not_found() {
    let mut host = Host::new();
    let registry = Registry::new(&host);
    let mut ctx = host.context();
    let s = create_server(&mut ctx, &registry, &one("https://modules.test/ident", IDENT)).unwrap();
    registry.add(s).unwrap();
    let r = registry.run(
        &mut ctx,
        &"https://modules.test/ident".to_string(),
        &"no_such_export".to_string(),
        &vec![Value::I32(1)],
    );
    assert!(matches!(r, Err(CallError::FunctionNotFound)));
}

#[test]
fn non_function_exports_are_not_callable() {
    // A modest address-space reservation, so declaring a linear memory does
    // not reserve gigabytes of virtual memory.
    let mut host = Host::with_memory_limits(1 << 20, 1 << 16).unwrap();
    let registry = Registry::new(&host);
    let mut ctx = host.context();
    let wat = r#"(module
      (memory (export "mem") 1)
      (global (export "gl") i32 (i32.const 7))
      (func (export "ok") (result i32) i32.const 1))"#;
    let s = create_server(&mut ctx, &registry, &one("https://modules.test/kinds", wat)).unwrap();
    registry.add(s).unwrap();
    let name = "https://modules.test/kinds".to_string();
    let mem = registry.run(&mut ctx, &name, &"mem".to_string(), &vec![]);
    assert!(matches!(mem, Err(CallError::NotCallable)));
    let gl = registry.run(&mut ctx, &name, &"gl".to_string(), &vec![]);
    assert!(matches!(gl, Err(CallError::NotCallable)));
    let ok = registry.run(&mut ctx, &name, &"ok".to_string(), &vec![]).unwrap();
    assert_eq!(ok, vec![Value::I32(1)]);
}

#[test]
fn trap_surfaces_as_execution_fault() {
    let mut host = Host::new();
    let registry = Registry::new(&host);
    let mut ctx = host.context();
    let wat = r#"(module (func (export "boom") unreachable))"#;
    let s = create_server(&mut ctx, &registry, &one("https://modules.test/trap", wat)).unwrap();
    registry.add(s).unwrap();
    let r = registry.run(
        &mut ctx,
        &"https://modules.test/trap".to_string(),
        &"boom".to_string(),
        &vec![],
    );
    assert!(matches!(r, Err(CallError::ExecutionFault(_))));
}

#[test]
fn import_arity_mismatch_traps_with_signature_message() {
    // The importer declares (param i32) with no result; the resolved provider
    // returns one value, which the trampoline refuses as a signature mismatch.
    let mut host = Host::new();
    let registry = Registry::new(&host);
    let mut ctx = host.context();
    let provider = r#"(module (func (export "f") (param i32) (result i32) local.get 0))"#;
    let caller = r#"(module
      (import "https://modules.test/a" "f" (func $f (param i32)))
      (func (export "go") (param i32) (result i32)
        local.get 0
        call $f
        i32.const 5))"#;
    let a = create_server(&mut ctx, &registry, &one("https://modules.test/a", provider)).unwrap();
    registry.add(a).unwrap();
    let b = create_server(&mut ctx, &registry, &one("https://modules.test/b", caller)).unwrap();
    registry.add(b).unwrap();
    let r = registry.run(
        &mut ctx,
        &"https://modules.test/b".to_string(),
        &"go".to_string(),
        &vec![Value::I32(1)],
    );
    match r {
        Err(CallError::ExecutionFault(msg)) => assert!(msg.contains("signature mismatch")),
        other => panic!("expected an execution fault, got {:?}", other),
    }
}

#[test]
fn invalid_bytes_are_a_load_error() {
    let mut host = Host::new();
    let registry = Registry::new(&host);
    let mut ctx = host.context();
    let r = create_server(
        &mut ctx,
        &registry,
        &vec![("https://modules.test/broken".to_string(), b"not a module".to_vec())],
    );
    assert!(matches!(r, Err(ServerError::Load(_))));
}

#[test]
fn non_function_import_is_an_unsupported_link() {
    let mut host = Host::new();
    let registry = Registry::new(&host);
    let mut ctx = host.context();
    let wat = r#"(module (import "x" "m" (memory 1)))"#;
    let r = create_server(&mut ctx, &registry, &one("https://modules.test/memimp", wat));
    assert!(matches!(r, Err(ServerError::Link(LinkError::UnsupportedImport))));
}

#[test]
fn one_server_can_host_several_modules() {
    let mut host = Host::new();
    let registry = Registry::new(&host);
    let mut ctx = host.context();
    let binaries = vec![
        ("https://modules.test/ident".to_string(), IDENT.as_bytes().to_vec()),
        ("https://modules.test/twice".to_string(), DOUBLER.as_bytes().to_vec()),
    ];
    let s = create_server(&mut ctx, &registry, &binaries).unwrap();
    registry.add(s).unwrap();
    let id = registry
        .run(
            &mut ctx,
            &"https://modules.test/ident".to_string(),
            &"return_arg".to_string(),
            &vec![Value::I32(41)],
        )
        .unwrap();
    assert_eq!(id, vec![Value::I32(41)]);
    let db = registry
        .run(
            &mut ctx,
            &"https://modules.test/twice".to_string(),
            &"return_double_arg".to_string(),
            &vec![Value::I32(41)],
        )
        .unwrap();
    assert_eq!(db, vec![Value::I32(82)]);
}

#[test]
fn export_table_lookup() {
    let table = ExportTable::new(vec![
        ExportEntry { name: "gl".to_string(), index: 0, kind: ExportKind::Global, handle: None },
        ExportEntry { name: "mem".to_string(), index: 1, kind: ExportKind::Memory, handle: None },
    ]);
    let gl = table.lookup(&"gl".to_string()).unwrap();
    assert_eq!(gl.kind, ExportKind::Global);
    assert_eq!(gl.index, 0);
    let mem = table.lookup(&"mem".to_string()).unwrap();
    assert_eq!(mem.kind, ExportKind::Memory);
    assert_eq!(mem.index, 1);
    assert!(table.lookup(&"absent".to_string()).is_none());
}

#[test]
fn server_get() {
    let table = ExportTable::new(vec![ExportEntry {
        name: "gl".to_string(),
        index: 0,
        kind: ExportKind::Global,
        handle: None,
    }]);
    let module = LoadedModule::new(table);
    let server = Server::new(vec![("https://modules.test/only".to_string(), module)]);
    assert!(server.get(&"https://modules.test/only".to_string()).is_some());
    assert!(server.get(&"https://modules.test/other".to_string()).is_none());
}

#[test]
fn shared_handles_watch_one_sequence() {
    // A handle obtained through `share` refers to the same registry: servers
    // added through one handle resolve through the other.
    let mut host = Host::new();
    let registry = Registry::new(&host);
    let mut ctx = host.context();
    let other = registry.share();
    let s = create_server(&mut ctx, &registry, &one("https://modules.test/ident", IDENT)).unwrap();
    registry.add(s).unwrap();
    let out = other
        .run(
            &mut ctx,
            &"https://modules.test/ident".to_string(),
            &"return_arg".to_string(),
            &vec![Value::I32(5)],
        )
        .unwrap();
    assert_eq!(out, vec![Value::I32(5)]);
}

#[test]
fn error_descriptions() {
    assert_eq!(
        (CallError::ModuleNotFound).describe(),
        "no server found with module loaded".to_string()
    );
    assert_eq!(
        (CallError::FunctionNotFound).describe(),
        "function not found in module".to_string()
    );
    assert_eq!((CallError::NotCallable).describe(), "item is not a function".to_string());
    assert_eq!((CallError::IndexInvalid).describe(), "export entry not found".to_string());
    assert_eq!((CallError::SignatureMismatch).describe(), "signature mismatch".to_string());
    assert_eq!(
        (CallError::ExecutionFault("stack overflow".to_string())).describe(),
        "stack overflow".to_string()
    );
}
