use emscripten_env::env::{call_stub, generate_emscripten_env};
use emscripten_env::imports::{resolve_imports, FunctionBinding, ImportValue, LinkError};
use emscripten_env::symbols::{host_functions, mocked_symbols, HostFunction};

fn imports_of(names: &[&str]) -> Vec<(String, String)> {
    names.iter().map(|n| ("env".to_string(), n.to_string())).collect()
}

#[test]
fn test_putchar() {
    let import_object = generate_emscripten_env();
    let resolved = resolve_imports(&import_object, &imports_of(&["putchar"])).expect("Not compiled properly");
    assert_eq!(resolved, vec![ImportValue::Func(FunctionBinding::Host(HostFunction::Putchar))]);
}

#[test]
fn test_print() {
    let import_object = generate_emscripten_env();
    let resolved = resolve_imports(&import_object, &imports_of(&["printf"])).expect("Not compiled properly");
    assert_eq!(resolved, vec![ImportValue::Func(FunctionBinding::Host(HostFunction::Printf))]);
}

#[test]
fn minimal_module_links_without_stubs() {
    let table = generate_emscripten_env();
    let resolved = resolve_imports(&table, &imports_of(&["STACKTOP", "putchar"])).unwrap();
    assert_eq!(resolved[0], ImportValue::Global(216640));
    assert_eq!(resolved[1], ImportValue::Func(FunctionBinding::Host(HostFunction::Putchar)));
    assert!(resolved.iter().all(|v| *v != ImportValue::Func(FunctionBinding::Stub)));
}

#[test]
fn unknown_symbol_is_unresolved() {
    let table = generate_emscripten_env();
    let err = resolve_imports(&table, &imports_of(&["putchar", "_no_such_symbol", "_also_missing"])).unwrap_err();
    match err {
        LinkError::UnresolvedImport { namespace, name } => {
            assert_eq!(namespace, "env");
            assert_eq!(name, "_no_such_symbol");
        }
    }
}

#[test]
fn wrong_namespace_is_unresolved() {
    let table = generate_emscripten_env();
    let imports = vec![("global".to_string(), "putchar".to_string())];
    assert!(matches!(
        resolve_imports(&table, &imports),
        Err(LinkError::UnresolvedImport { ref namespace, ref name }) if namespace == "global" && name == "putchar"
    ));
}

#[test]
fn empty_import_list_resolves() {
    let table = generate_emscripten_env();
    assert_eq!(resolve_imports(&table, &Vec::new()).unwrap(), Vec::<ImportValue>::new());
}

#[test]
fn globals_have_their_values() {
    let table = generate_emscripten_env();
    let expect = [
        ("global1", 24),
        ("global2", 50),
        ("global3", 67),
        ("STACKTOP", 216640),
        ("STACK_MAX", 5459520),
        ("DYNAMICTOP_PTR", 216624),
        ("tableBase", 0),
    ];
    for (name, value) in expect {
        assert_eq!(table.get("env", name), Some(ImportValue::Global(value)), "{}", name);
    }
}

#[test]
fn every_host_function_is_bound_to_itself() {
    let table = generate_emscripten_env();
    let hosts = host_functions();
    assert_eq!(hosts.len(), 41);
    for f in hosts {
        assert_eq!(table.get("env", f.symbol()), Some(ImportValue::Func(FunctionBinding::Host(f))));
    }
}

#[test]
fn implemented_syscalls_are_not_stubs() {
    let table = generate_emscripten_env();
    assert_eq!(table.get("env", "___syscall54"), Some(ImportValue::Func(FunctionBinding::Host(HostFunction::Syscall54))));
    assert_eq!(table.get("env", "___syscall140"), Some(ImportValue::Func(FunctionBinding::Host(HostFunction::Syscall140))));
    assert_eq!(table.get("env", "___syscall221"), Some(ImportValue::Func(FunctionBinding::Host(HostFunction::Syscall221))));
    assert_eq!(table.get("env", "___syscall20"), Some(ImportValue::Func(FunctionBinding::Host(HostFunction::Getpid))));
}

#[test]
fn every_mocked_symbol_is_a_stub() {
    let table = generate_emscripten_env();
    let mocked = mocked_symbols();
    assert_eq!(mocked.len(), 62);
    for name in mocked {
        assert_eq!(table.get("env", name), Some(ImportValue::Func(FunctionBinding::Stub)), "{}", name);
    }
}

#[test]
fn symbols_are_distinct() {
    let mut names: Vec<&str> = mocked_symbols();
    names.extend(host_functions().iter().map(|f| f.symbol()));
    names.extend(["global1", "global2", "global3", "STACKTOP", "STACK_MAX", "DYNAMICTOP_PTR", "tableBase"]);
    let n = names.len();
    names.sort();
    names.dedup();
    assert_eq!(names.len(), n);
    assert_eq!(n, 110);
}

#[test]
fn time_is_a_stub_that_returns_zero() {
    let table = generate_emscripten_env();
    assert_eq!(table.get("env", "_time"), Some(ImportValue::Func(FunctionBinding::Stub)));
    let (result, line) = call_stub("_time");
    assert_eq!(result, 0);
    assert_eq!(line, "_time <mock>");
    assert!(!line.contains('\n'));
}

#[test]
fn nothing_outside_env_is_bound() {
    let table = generate_emscripten_env();
    assert_eq!(table.get("global", "putchar"), None);
    assert_eq!(table.get("env", "_time2"), None);
    assert_eq!(table.get("env", ""), None);
}
