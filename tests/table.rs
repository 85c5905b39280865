use emscripten_env::imports::{FunctionBinding, ImportObject, ImportValue};
use emscripten_env::symbols::HostFunction;

#[test]
fn set_then_get() {
    let mut t = ImportObject::new();
    assert_eq!(t.get("env", "x"), None);
    t.set("env", "x", ImportValue::Global(1));
    t.set("env", "y", ImportValue::Func(FunctionBinding::Stub));
    assert_eq!(t.get("env", "x"), Some(ImportValue::Global(1)));
    assert_eq!(t.get("env", "y"), Some(ImportValue::Func(FunctionBinding::Stub)));
    assert_eq!(t.get("other", "x"), None);
}

#[test]
fn last_write_wins() {
    let mut t = ImportObject::new();
    t.set("env", "x", ImportValue::Func(FunctionBinding::Stub));
    t.set("env", "x", ImportValue::Func(FunctionBinding::Host(HostFunction::Putchar)));
    assert_eq!(t.get("env", "x"), Some(ImportValue::Func(FunctionBinding::Host(HostFunction::Putchar))));
}
