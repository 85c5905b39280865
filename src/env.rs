//! Building the `env` import table, and what a stub does when called.

use crate::imports::{FunctionBinding, ImportKey, ImportObject, ImportValue};
use crate::layout::{
    dynamictop_ptr, spec_dynamictop_ptr, spec_stack_max, spec_stacktop, stack_max, stacktop,
    STATIC_BUMP,
};
use crate::symbols::{
    all_from, host_functions, host_of, lemma_all_from, lemma_host_of_symbol, mocked_symbols,
    spec_host_functions, spec_mocked_symbols,
};
use vstd::prelude::*;

verus! {

/// The key of `name` in the `env` namespace.
pub open spec fn env_key(name: Seq<char>) -> ImportKey {
    ("env"@, name)
}

/// `name` is the symbol of a host function or of a stub.
pub open spec fn is_function_symbol(name: Seq<char>) -> bool {
    ||| exists|i: int| 0 <= i < spec_mocked_symbols().len() && spec_mocked_symbols()[i]@ == name
    ||| exists|i: int|
        0 <= i < spec_host_functions().len() && spec_host_functions()[i].spec_symbol()@ == name
}

/// The numeric globals and their values, for the default static data size.
pub open spec fn spec_globals() -> Seq<(&'static str, i32)> {
    seq![
        ("global1", 24i32),
        ("global2", 50i32),
        ("global3", 67i32),
        ("STACKTOP", spec_stacktop(STATIC_BUMP as int) as i32),
        ("STACK_MAX", spec_stack_max(STATIC_BUMP as int) as i32),
        ("DYNAMICTOP_PTR", spec_dynamictop_ptr(STATIC_BUMP as int) as i32),
        ("tableBase", 0i32),
    ]
}

/// Each stubbed symbol starts with `_` and is no host function's symbol.
proof fn lemma_mocked_symbols()
    ensures
        forall|i: int| 0 <= i < spec_mocked_symbols().len() ==> {
            let s = #[trigger] spec_mocked_symbols()[i]@;
            host_of(s) is None && s.len() > 0 && s[0] == '_'
        },
{
    reveal_strlit("_waitpid");
    reveal_strlit("_utimes");
    reveal_strlit("_usleep");
    reveal_strlit("_time");
    reveal_strlit("_sysconf");
    reveal_strlit("_strftime");
    reveal_strlit("_sigsuspend");
    reveal_strlit("_sigprocmask");
    reveal_strlit("_sigemptyset");
    reveal_strlit("_sigaddset");
    reveal_strlit("_sigaction");
    reveal_strlit("_setitimer");
    reveal_strlit("_setgroups");
    reveal_strlit("_setgrent");
    reveal_strlit("_sem_wait");
    reveal_strlit("_sem_post");
    reveal_strlit("_sem_init");
    reveal_strlit("_sched_yield");
    reveal_strlit("_raise");
    reveal_strlit("_mktime");
    reveal_strlit("_localtime");
    reveal_strlit("_llvm_stacksave");
    reveal_strlit("_llvm_stackrestore");
    reveal_strlit("_kill");
    reveal_strlit("_gmtime_r");
    reveal_strlit("_getgrent");
    reveal_strlit("_getaddrinfo");
    reveal_strlit("_fork");
    reveal_strlit("_exit");
    reveal_strlit("_execve");
    reveal_strlit("_endgrent");
    reveal_strlit("___syscall97");
    reveal_strlit("___syscall91");
    reveal_strlit("___syscall85");
    reveal_strlit("___syscall75");
    reveal_strlit("___syscall66");
    reveal_strlit("___syscall63");
    reveal_strlit("___syscall60");
    reveal_strlit("___syscall39");
    reveal_strlit("___syscall38");
    reveal_strlit("___syscall340");
    reveal_strlit("___syscall334");
    reveal_strlit("___syscall300");
    reveal_strlit("___syscall295");
    reveal_strlit("___syscall272");
    reveal_strlit("___syscall268");
    reveal_strlit("___syscall220");
    reveal_strlit("___syscall212");
    reveal_strlit("___syscall201");
    reveal_strlit("___syscall199");
    reveal_strlit("___syscall197");
    reveal_strlit("___syscall196");
    reveal_strlit("___syscall195");
    reveal_strlit("___syscall194");
    reveal_strlit("___syscall191");
    reveal_strlit("___syscall181");
    reveal_strlit("___syscall180");
    reveal_strlit("___syscall168");
    reveal_strlit("___syscall142");
    reveal_strlit("___syscall102");
    reveal_strlit("___syscall15");
    reveal_strlit("___syscall10");
    let p = |s: Seq<char>| host_of(s) is None && s.len() > 0 && s[0] == '_';
    reveal_with_fuel(all_from, 63);
    assert(all_from(spec_mocked_symbols(), 0, p));
    lemma_all_from(spec_mocked_symbols(), 0, p);
}

/// No global's name is a host function's symbol, and none starts with `_`.
proof fn lemma_global_names()
    ensures
        forall|j: int| 0 <= j < spec_globals().len() ==> {
            let g = #[trigger] spec_globals()[j].0@;
            host_of(g) is None && g.len() > 0 && g[0] != '_'
        },
{
    reveal_strlit("global1");
    reveal_strlit("global2");
    reveal_strlit("global3");
    reveal_strlit("STACKTOP");
    reveal_strlit("STACK_MAX");
    reveal_strlit("DYNAMICTOP_PTR");
    reveal_strlit("tableBase");
    assert forall|j: int| 0 <= j < spec_globals().len() implies {
        let g = #[trigger] spec_globals()[j].0@;
        host_of(g) is None && g.len() > 0 && g[0] != '_'
    } by {
        let g = spec_globals()[j].0@;
        assert(g.len() > 0 && g[0] != '_' && host_of(g) is None);
    }
}

/// No stub or host function shares its symbol with a numeric global.
proof fn lemma_globals_are_not_functions()
    ensures
        forall|j: int| 0 <= j < spec_globals().len() ==> !is_function_symbol(#[trigger] spec_globals()[j].0@),
{
    lemma_mocked_symbols();
    lemma_global_names();
    assert forall|j: int| 0 <= j < spec_globals().len() implies !is_function_symbol(#[trigger] spec_globals()[j].0@) by {
        let g = spec_globals()[j].0@;
        if exists|i: int| 0 <= i < spec_mocked_symbols().len() && spec_mocked_symbols()[i]@ == g {
            let i = choose|i: int| 0 <= i < spec_mocked_symbols().len() && spec_mocked_symbols()[i]@ == g;
            assert(spec_mocked_symbols()[i]@[0] == '_');
        }
        if exists|i: int| 0 <= i < spec_host_functions().len() && spec_host_functions()[i].spec_symbol()@ == g {
            let i = choose|i: int| 0 <= i < spec_host_functions().len() && spec_host_functions()[i].spec_symbol()@ == g;
            lemma_host_of_symbol(spec_host_functions()[i]);
        }
    }
}

/// The symbol is a numeric global's name.
pub open spec fn is_global_name(name: Seq<char>) -> bool {
    exists|j: int| 0 <= j < spec_globals().len() && spec_globals()[j].0@ == name
}

/// The `env` table a module built against the Emscripten ABI links against.
///
/// Each numeric global is bound to its value, each host function's symbol to
/// that host function, and each stubbed symbol to a stub. Nothing else is
/// bound, and no key is bound to two things along the way.
pub fn generate_emscripten_env() -> (r: ImportObject)
    ensures
        r.wf(),
        forall|i: int|
            0 <= i < spec_globals().len() ==> #[trigger] r@.contains_key(env_key(spec_globals()[i].0@)),
        forall|i: int|
            0 <= i < spec_globals().len()
                ==> r@[env_key(#[trigger] spec_globals()[i].0@)] == ImportValue::Global(spec_globals()[i].1),
        forall|i: int|
            0 <= i < spec_mocked_symbols().len() ==> #[trigger] r@.contains_key(env_key(spec_mocked_symbols()[i]@)),
        forall|i: int|
            0 <= i < spec_mocked_symbols().len()
                ==> r@[env_key(#[trigger] spec_mocked_symbols()[i]@)] == ImportValue::Func(FunctionBinding::Stub),
        forall|i: int|
            0 <= i < spec_host_functions().len() ==> #[trigger] r@.contains_key(env_key(spec_host_functions()[i].spec_symbol()@)),
        forall|i: int|
            0 <= i < spec_host_functions().len()
                ==> r@[env_key(#[trigger] spec_host_functions()[i].spec_symbol()@)]
                    == ImportValue::Func(FunctionBinding::Host(spec_host_functions()[i])),
        forall|k: ImportKey|
            #[trigger] r@.contains_key(k) ==> k.0 == "env"@ && (is_function_symbol(k.1) || is_global_name(k.1)),
{
    let mut table = ImportObject::new();
    let globals: Vec<(&'static str, i32)> = vec![
        ("global1", 24i32),
        ("global2", 50i32),
        ("global3", 67i32),
        ("STACKTOP", stacktop(STATIC_BUMP) as i32),
        ("STACK_MAX", stack_max(STATIC_BUMP) as i32),
        ("DYNAMICTOP_PTR", dynamictop_ptr(STATIC_BUMP) as i32),
        ("tableBase", 0i32),
    ];
    assert(globals@ == spec_globals());
    proof {
        reveal_strlit("global1");
        reveal_strlit("global2");
        reveal_strlit("global3");
        reveal_strlit("STACKTOP");
        reveal_strlit("STACK_MAX");
        reveal_strlit("DYNAMICTOP_PTR");
        reveal_strlit("tableBase");
        assert forall|j: int, l: int| 0 <= j < l < globals@.len() implies globals@[j].0@ != globals@[l].0@ by {
            let (x, y) = (globals@[j].0@, globals@[l].0@);
            assert(x.len() != y.len() || x[6] != y[6] || x[0] != y[0]);
        }
    }
    let mut i: usize = 0;
    while i < globals.len()
        invariant
            globals@ == spec_globals(),
            table.wf(),
            0 <= i <= globals@.len(),
            forall|j: int| 0 <= j < i ==> #[trigger] table@.contains_key(env_key(globals@[j].0@)),
            forall|j: int| 0 <= j < i ==> table@[env_key(#[trigger] globals@[j].0@)] == ImportValue::Global(globals@[j].1),
            forall|j: int, l: int| 0 <= j < l < globals@.len() ==> globals@[j].0@ != globals@[l].0@,
            forall|k: ImportKey| #[trigger] table@.contains_key(k) ==> k.0 == "env"@ && is_global_name(k.1),
        decreases globals@.len() - i,
    {
        let (name, value) = globals[i];
        table.set("env", name, ImportValue::Global(value));
        i = i + 1;
    }
    let ghost after_globals = table@;
    let mocked = mocked_symbols();
    let mut i: usize = 0;
    while i < mocked.len()
        invariant
            mocked@ == spec_mocked_symbols(),
            table.wf(),
            0 <= i <= mocked@.len(),
            forall|j: int| 0 <= j < i ==> #[trigger] table@.contains_key(env_key(mocked@[j]@)),
            forall|j: int| 0 <= j < i ==> table@[env_key(#[trigger] mocked@[j]@)] == ImportValue::Func(FunctionBinding::Stub),
            forall|k: ImportKey| #[trigger] after_globals.contains_key(k) ==> table@.contains_key(k),
            forall|k: ImportKey|
                after_globals.contains_key(k) && (forall|j: int| 0 <= j < i ==> k != env_key(mocked@[j]@))
                    ==> #[trigger] table@[k] == after_globals[k],
            forall|k: ImportKey| #[trigger] table@.contains_key(k) ==> k.0 == "env"@ && (is_function_symbol(k.1) || is_global_name(k.1)),
        decreases mocked@.len() - i,
    {
        table.set("env", mocked[i], ImportValue::Func(FunctionBinding::Stub));
        i = i + 1;
    }
    let ghost after_stubs = table@;
    let hosts = host_functions();
    let mut i: usize = 0;
    while i < hosts.len()
        invariant
            hosts@ == spec_host_functions(),
            mocked@ == spec_mocked_symbols(),
            table.wf(),
            0 <= i <= hosts@.len(),
            forall|j: int| 0 <= j < i ==> #[trigger] table@.contains_key(env_key(hosts@[j].spec_symbol()@)),
            forall|j: int| 0 <= j < i ==> table@[env_key(#[trigger] hosts@[j].spec_symbol()@)] == ImportValue::Func(FunctionBinding::Host(hosts@[j])),
            forall|j: int| 0 <= j < mocked@.len() ==> table@[env_key(#[trigger] mocked@[j]@)] == ImportValue::Func(FunctionBinding::Stub),
            forall|k: ImportKey| #[trigger] after_stubs.contains_key(k) ==> table@.contains_key(k),
            forall|k: ImportKey|
                after_stubs.contains_key(k) && (forall|j: int| 0 <= j < i ==> k != env_key(hosts@[j].spec_symbol()@))
                    ==> #[trigger] table@[k] == after_stubs[k],
            forall|k: ImportKey| #[trigger] table@.contains_key(k) ==> k.0 == "env"@ && (is_function_symbol(k.1) || is_global_name(k.1)),
        decreases hosts@.len() - i,
    {
        let f = hosts[i];
        let ghost before = table@;
        table.set("env", f.symbol(), ImportValue::Func(FunctionBinding::Host(f)));
        proof {
            lemma_mocked_symbols();
            lemma_host_of_symbol(f);
            assert forall|j: int| 0 <= j < i implies table@[env_key(#[trigger] hosts@[j].spec_symbol()@)]
                == ImportValue::Func(FunctionBinding::Host(hosts@[j])) by {
                lemma_host_of_symbol(hosts@[j]);
            }
            assert forall|j: int| 0 <= j < mocked@.len() implies table@[env_key(#[trigger] mocked@[j]@)]
                == ImportValue::Func(FunctionBinding::Stub) by {
                assert(host_of(spec_mocked_symbols()[j]@) is None);
            }
            assert(is_function_symbol(f.spec_symbol()@)) by {
                assert(spec_host_functions()[i as int].spec_symbol()@ == f.spec_symbol()@);
            }
        }
        i = i + 1;
    }
    proof {
        lemma_globals_are_not_functions();
        lemma_mocked_symbols();
        assert forall|j: int| 0 <= j < spec_globals().len()
            implies #[trigger] table@.contains_key(env_key(spec_globals()[j].0@)) by {
            assert(after_globals.contains_key(env_key(globals@[j].0@)));
            assert(after_stubs.contains_key(env_key(globals@[j].0@)));
        }
        assert forall|j: int| 0 <= j < spec_globals().len()
            implies table@[env_key(#[trigger] spec_globals()[j].0@)] == ImportValue::Global(spec_globals()[j].1) by {
            let k = env_key(globals@[j].0@);
            assert(!is_function_symbol(spec_globals()[j].0@));
            assert(after_globals.contains_key(k));
            assert(after_stubs.contains_key(k));
            assert forall|l: int| 0 <= l < mocked@.len() implies k != env_key(mocked@[l]@) by {
                assert(spec_mocked_symbols()[l]@ != spec_globals()[j].0@);
            }
            assert forall|l: int| 0 <= l < hosts@.len() implies k != env_key(hosts@[l].spec_symbol()@) by {
                assert(spec_host_functions()[l].spec_symbol()@ != spec_globals()[j].0@);
            }
            assert(after_stubs[k] == after_globals[k]);
            assert(table@[k] == after_stubs[k]);
        }
        assert forall|j: int| 0 <= j < spec_mocked_symbols().len()
            implies #[trigger] table@.contains_key(env_key(spec_mocked_symbols()[j]@)) by {
            assert(after_stubs.contains_key(env_key(mocked@[j]@)));
        }
    }
    table
}

/// What calling a stub bound under `symbol` does: it returns zero and
/// reports one diagnostic line naming the symbol.
pub fn call_stub(symbol: &str) -> (r: (i32, String))
    ensures
        r.0 == 0,
        r.1@ == symbol@ + " <mock>"@,
{
    let mut line = String::from_str(symbol);
    line.append(" <mock>");
    (0, line)
}

} // verus!
