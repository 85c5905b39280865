//! The symbols that modules built against the Emscripten ABI import from the
//! `env` namespace: those the host emulates and those it only stubs.

use vstd::prelude::*;

verus! {

/// A host emulation function that an import can be bound to.
#[derive(Clone, Copy, Debug, PartialEq, Eq, Structural)]
pub enum HostFunction {
    Printf,
    Putchar,
    Lock,
    Unlock,
    Getenv,
    SetErrNo,
    Syscall1,
    Syscall3,
    Syscall4,
    Syscall5,
    Syscall6,
    Syscall54,
    Syscall140,
    Syscall145,
    Syscall146,
    Syscall221,
    EmAbort,
    Abort,
    AbortStackOverflow,
    AbortOnCannotGrowMemory,
    EmscriptenMemcpyBig,
    EnlargeMemory,
    GetTotalMemory,
    NullFuncIi,
    NullFuncIii,
    NullFuncIiii,
    NullFuncIiiii,
    NullFuncIiiiii,
    NullFuncVi,
    NullFuncVii,
    NullFuncViii,
    NullFuncViiii,
    Getpwnam,
    Getgrnam,
    Gettimeofday,
    ClockGettime,
    Getpid,
    Getppid,
    Uname,
    LocaltimeR,
    Getpagesize,
}

impl HostFunction {
    /// The symbol under which the toolchain imports this function.
    pub open spec fn spec_symbol(self) -> &'static str {
        match self {
            HostFunction::Printf => "printf",
            HostFunction::Putchar => "putchar",
            HostFunction::Lock => "___lock",
            HostFunction::Unlock => "___unlock",
            HostFunction::Getenv => "_getenv",
            HostFunction::SetErrNo => "___setErrNo",
            HostFunction::Syscall1 => "___syscall1",
            HostFunction::Syscall3 => "___syscall3",
            HostFunction::Syscall4 => "___syscall4",
            HostFunction::Syscall5 => "___syscall5",
            HostFunction::Syscall6 => "___syscall6",
            HostFunction::Syscall54 => "___syscall54",
            HostFunction::Syscall140 => "___syscall140",
            HostFunction::Syscall145 => "___syscall145",
            HostFunction::Syscall146 => "___syscall146",
            HostFunction::Syscall221 => "___syscall221",
            HostFunction::EmAbort => "abort",
            HostFunction::Abort => "_abort",
            HostFunction::AbortStackOverflow => "abortStackOverflow",
            HostFunction::AbortOnCannotGrowMemory => "abortOnCannotGrowMemory",
            HostFunction::EmscriptenMemcpyBig => "_emscripten_memcpy_big",
            HostFunction::EnlargeMemory => "enlargeMemory",
            HostFunction::GetTotalMemory => "getTotalMemory",
            HostFunction::NullFuncIi => "nullFunc_ii",
            HostFunction::NullFuncIii => "nullFunc_iii",
            HostFunction::NullFuncIiii => "nullFunc_iiii",
            HostFunction::NullFuncIiiii => "nullFunc_iiiii",
            HostFunction::NullFuncIiiiii => "nullFunc_iiiiii",
            HostFunction::NullFuncVi => "nullFunc_vi",
            HostFunction::NullFuncVii => "nullFunc_vii",
            HostFunction::NullFuncViii => "nullFunc_viii",
            HostFunction::NullFuncViiii => "nullFunc_viiii",
            HostFunction::Getpwnam => "_getpwnam",
            HostFunction::Getgrnam => "_getgrnam",
            HostFunction::Gettimeofday => "_gettimeofday",
            HostFunction::ClockGettime => "_clock_gettime",
            HostFunction::Getpid => "___syscall20",
            HostFunction::Getppid => "___syscall64",
            HostFunction::Uname => "___syscall122",
            HostFunction::LocaltimeR => "_localtime_r",
            HostFunction::Getpagesize => "_getpagesize",
        }
    }

    /// The symbol under which the toolchain imports this function.
    pub fn symbol(&self) -> (r: &'static str)
        ensures
            r == self.spec_symbol(),
    {
        match self {
            HostFunction::Printf => "printf",
            HostFunction::Putchar => "putchar",
            HostFunction::Lock => "___lock",
            HostFunction::Unlock => "___unlock",
            HostFunction::Getenv => "_getenv",
            HostFunction::SetErrNo => "___setErrNo",
            HostFunction::Syscall1 => "___syscall1",
            HostFunction::Syscall3 => "___syscall3",
            HostFunction::Syscall4 => "___syscall4",
            HostFunction::Syscall5 => "___syscall5",
            HostFunction::Syscall6 => "___syscall6",
            HostFunction::Syscall54 => "___syscall54",
            HostFunction::Syscall140 => "___syscall140",
            HostFunction::Syscall145 => "___syscall145",
            HostFunction::Syscall146 => "___syscall146",
            HostFunction::Syscall221 => "___syscall221",
            HostFunction::EmAbort => "abort",
            HostFunction::Abort => "_abort",
            HostFunction::AbortStackOverflow => "abortStackOverflow",
            HostFunction::AbortOnCannotGrowMemory => "abortOnCannotGrowMemory",
            HostFunction::EmscriptenMemcpyBig => "_emscripten_memcpy_big",
            HostFunction::EnlargeMemory => "enlargeMemory",
            HostFunction::GetTotalMemory => "getTotalMemory",
            HostFunction::NullFuncIi => "nullFunc_ii",
            HostFunction::NullFuncIii => "nullFunc_iii",
            HostFunction::NullFuncIiii => "nullFunc_iiii",
            HostFunction::NullFuncIiiii => "nullFunc_iiiii",
            HostFunction::NullFuncIiiiii => "nullFunc_iiiiii",
            HostFunction::NullFuncVi => "nullFunc_vi",
            HostFunction::NullFuncVii => "nullFunc_vii",
            HostFunction::NullFuncViii => "nullFunc_viii",
            HostFunction::NullFuncViiii => "nullFunc_viiii",
            HostFunction::Getpwnam => "_getpwnam",
            HostFunction::Getgrnam => "_getgrnam",
            HostFunction::Gettimeofday => "_gettimeofday",
            HostFunction::ClockGettime => "_clock_gettime",
            HostFunction::Getpid => "___syscall20",
            HostFunction::Getppid => "___syscall64",
            HostFunction::Uname => "___syscall122",
            HostFunction::LocaltimeR => "_localtime_r",
            HostFunction::Getpagesize => "_getpagesize",
        }
    }
}

/// The host function imported under `name`, if there is one: among the
/// symbols the toolchain emits, each is told apart by its length and a few
/// of its characters.
pub open spec fn host_of(name: Seq<char>) -> Option<HostFunction> {
    if name.len() == 6 && name[0] == 'p' {
        Some(HostFunction::Printf)
    } else if name.len() == 7 && name[0] == 'p' {
        Some(HostFunction::Putchar)
    } else if name.len() == 7 && name[1] == '_' {
        Some(HostFunction::Lock)
    } else if name.len() == 9 && name[1] == '_' {
        Some(HostFunction::Unlock)
    } else if name.len() == 7 && name[1] == 'g' {
        Some(HostFunction::Getenv)
    } else if name.len() == 11 && name[4] == 'e' {
        Some(HostFunction::SetErrNo)
    } else if name.len() == 11 && name[10] == '1' {
        Some(HostFunction::Syscall1)
    } else if name.len() == 11 && name[10] == '3' {
        Some(HostFunction::Syscall3)
    } else if name.len() == 11 && name[10] == '4' {
        Some(HostFunction::Syscall4)
    } else if name.len() == 11 && name[10] == '5' {
        Some(HostFunction::Syscall5)
    } else if name.len() == 11 && name[10] == '6' {
        Some(HostFunction::Syscall6)
    } else if name.len() == 12 && name[10] == '5' {
        Some(HostFunction::Syscall54)
    } else if name.len() == 13 && name[10] == '1' && name[11] == '4' && name[12] == '0' {
        Some(HostFunction::Syscall140)
    } else if name.len() == 13 && name[11] == '4' && name[12] == '5' {
        Some(HostFunction::Syscall145)
    } else if name.len() == 13 && name[11] == '4' && name[12] == '6' {
        Some(HostFunction::Syscall146)
    } else if name.len() == 13 && name[11] == '2' && name[12] == '1' {
        Some(HostFunction::Syscall221)
    } else if name.len() == 5 && name[0] == 'a' {
        Some(HostFunction::EmAbort)
    } else if name.len() == 6 && name[1] == 'a' {
        Some(HostFunction::Abort)
    } else if name.len() == 18 && name[0] == 'a' {
        Some(HostFunction::AbortStackOverflow)
    } else if name.len() == 23 {
        Some(HostFunction::AbortOnCannotGrowMemory)
    } else if name.len() == 22 {
        Some(HostFunction::EmscriptenMemcpyBig)
    } else if name.len() == 13 && name[0] == 'e' {
        Some(HostFunction::EnlargeMemory)
    } else if name.len() == 14 && name[0] == 'g' {
        Some(HostFunction::GetTotalMemory)
    } else if name.len() == 11 && name[9] == 'i' {
        Some(HostFunction::NullFuncIi)
    } else if name.len() == 12 && name[0] == 'n' && name[9] == 'i' {
        Some(HostFunction::NullFuncIii)
    } else if name.len() == 13 && name[9] == 'i' {
        Some(HostFunction::NullFuncIiii)
    } else if name.len() == 14 && name[9] == 'i' {
        Some(HostFunction::NullFuncIiiii)
    } else if name.len() == 15 && name[0] == 'n' {
        Some(HostFunction::NullFuncIiiiii)
    } else if name.len() == 11 && name[9] == 'v' {
        Some(HostFunction::NullFuncVi)
    } else if name.len() == 12 && name[9] == 'v' {
        Some(HostFunction::NullFuncVii)
    } else if name.len() == 13 && name[9] == 'v' {
        Some(HostFunction::NullFuncViii)
    } else if name.len() == 14 && name[9] == 'v' {
        Some(HostFunction::NullFuncViiii)
    } else if name.len() == 9 && name[4] == 'p' {
        Some(HostFunction::Getpwnam)
    } else if name.len() == 9 && name[4] == 'g' && name[7] == 'a' {
        Some(HostFunction::Getgrnam)
    } else if name.len() == 13 && name[1] == 'g' {
        Some(HostFunction::Gettimeofday)
    } else if name.len() == 14 && name[0] == '_' {
        Some(HostFunction::ClockGettime)
    } else if name.len() == 12 && name[10] == '2' {
        Some(HostFunction::Getpid)
    } else if name.len() == 12 && name[10] == '6' && name[11] == '4' {
        Some(HostFunction::Getppid)
    } else if name.len() == 13 && name[10] == '1' && name[11] == '2' {
        Some(HostFunction::Uname)
    } else if name.len() == 12 && name[1] == 'l' {
        Some(HostFunction::LocaltimeR)
    } else if name.len() == 12 && name[5] == 'a' {
        Some(HostFunction::Getpagesize)
    } else {
        None
    }
}

/// `p` holds of the view of every name of `names` from index `i` on.
pub open spec fn all_from(names: Seq<&'static str>, i: int, p: spec_fn(Seq<char>) -> bool) -> bool
    decreases names.len() - i,
{
    if 0 <= i < names.len() {
        p(names[i]@) && all_from(names, i + 1, p)
    } else {
        true
    }
}

pub proof fn lemma_all_from(names: Seq<&'static str>, i: int, p: spec_fn(Seq<char>) -> bool)
    requires
        0 <= i,
        all_from(names, i, p),
    ensures
        forall|j: int| i <= j < names.len() ==> #[trigger] p(names[j]@),
    decreases names.len() - i,
{
    if i < names.len() {
        lemma_all_from(names, i + 1, p);
    }
}

/// Each host function is the one `host_of` finds under its symbol.
pub proof fn lemma_host_of_symbol(f: HostFunction)
    ensures
        host_of(f.spec_symbol()@) == Some(f),
{
    reveal_strlit("printf");
    reveal_strlit("putchar");
    reveal_strlit("___lock");
    reveal_strlit("___unlock");
    reveal_strlit("_getenv");
    reveal_strlit("___setErrNo");
    reveal_strlit("___syscall1");
    reveal_strlit("___syscall3");
    reveal_strlit("___syscall4");
    reveal_strlit("___syscall5");
    reveal_strlit("___syscall6");
    reveal_strlit("___syscall54");
    reveal_strlit("___syscall140");
    reveal_strlit("___syscall145");
    reveal_strlit("___syscall146");
    reveal_strlit("___syscall221");
    reveal_strlit("abort");
    reveal_strlit("_abort");
    reveal_strlit("abortStackOverflow");
    reveal_strlit("abortOnCannotGrowMemory");
    reveal_strlit("_emscripten_memcpy_big");
    reveal_strlit("enlargeMemory");
    reveal_strlit("getTotalMemory");
    reveal_strlit("nullFunc_ii");
    reveal_strlit("nullFunc_iii");
    reveal_strlit("nullFunc_iiii");
    reveal_strlit("nullFunc_iiiii");
    reveal_strlit("nullFunc_iiiiii");
    reveal_strlit("nullFunc_vi");
    reveal_strlit("nullFunc_vii");
    reveal_strlit("nullFunc_viii");
    reveal_strlit("nullFunc_viiii");
    reveal_strlit("_getpwnam");
    reveal_strlit("_getgrnam");
    reveal_strlit("_gettimeofday");
    reveal_strlit("_clock_gettime");
    reveal_strlit("___syscall20");
    reveal_strlit("___syscall64");
    reveal_strlit("___syscall122");
    reveal_strlit("_localtime_r");
    reveal_strlit("_getpagesize");
}

/// Every host emulation function, in registration order.
pub open spec fn spec_host_functions() -> Seq<HostFunction> {
    seq![
        HostFunction::Printf,
        HostFunction::Putchar,
        HostFunction::Lock,
        HostFunction::Unlock,
        HostFunction::Getenv,
        HostFunction::SetErrNo,
        HostFunction::Syscall1,
        HostFunction::Syscall3,
        HostFunction::Syscall4,
        HostFunction::Syscall5,
        HostFunction::Syscall6,
        HostFunction::Syscall54,
        HostFunction::Syscall140,
        HostFunction::Syscall145,
        HostFunction::Syscall146,
        HostFunction::Syscall221,
        HostFunction::EmAbort,
        HostFunction::Abort,
        HostFunction::AbortStackOverflow,
        HostFunction::AbortOnCannotGrowMemory,
        HostFunction::EmscriptenMemcpyBig,
        HostFunction::EnlargeMemory,
        HostFunction::GetTotalMemory,
        HostFunction::NullFuncIi,
        HostFunction::NullFuncIii,
        HostFunction::NullFuncIiii,
        HostFunction::NullFuncIiiii,
        HostFunction::NullFuncIiiiii,
        HostFunction::NullFuncVi,
        HostFunction::NullFuncVii,
        HostFunction::NullFuncViii,
        HostFunction::NullFuncViiii,
        HostFunction::Getpwnam,
        HostFunction::Getgrnam,
        HostFunction::Gettimeofday,
        HostFunction::ClockGettime,
        HostFunction::Getpid,
        HostFunction::Getppid,
        HostFunction::Uname,
        HostFunction::LocaltimeR,
        HostFunction::Getpagesize,
    ]
}

/// Every host emulation function, in registration order.
pub fn host_functions() -> (r: Vec<HostFunction>)
    ensures
        r@ == spec_host_functions(),
{
    vec![
        HostFunction::Printf,
        HostFunction::Putchar,
        HostFunction::Lock,
        HostFunction::Unlock,
        HostFunction::Getenv,
        HostFunction::SetErrNo,
        HostFunction::Syscall1,
        HostFunction::Syscall3,
        HostFunction::Syscall4,
        HostFunction::Syscall5,
        HostFunction::Syscall6,
        HostFunction::Syscall54,
        HostFunction::Syscall140,
        HostFunction::Syscall145,
        HostFunction::Syscall146,
        HostFunction::Syscall221,
        HostFunction::EmAbort,
        HostFunction::Abort,
        HostFunction::AbortStackOverflow,
        HostFunction::AbortOnCannotGrowMemory,
        HostFunction::EmscriptenMemcpyBig,
        HostFunction::EnlargeMemory,
        HostFunction::GetTotalMemory,
        HostFunction::NullFuncIi,
        HostFunction::NullFuncIii,
        HostFunction::NullFuncIiii,
        HostFunction::NullFuncIiiii,
        HostFunction::NullFuncIiiiii,
        HostFunction::NullFuncVi,
        HostFunction::NullFuncVii,
        HostFunction::NullFuncViii,
        HostFunction::NullFuncViiii,
        HostFunction::Getpwnam,
        HostFunction::Getgrnam,
        HostFunction::Gettimeofday,
        HostFunction::ClockGettime,
        HostFunction::Getpid,
        HostFunction::Getppid,
        HostFunction::Uname,
        HostFunction::LocaltimeR,
        HostFunction::Getpagesize,
    ]
}

/// The symbols that are declared by the toolchain but only stubbed here.
pub open spec fn spec_mocked_symbols() -> Seq<&'static str> {
    seq![
        "_waitpid",
        "_utimes",
        "_usleep",
        "_time",
        "_sysconf",
        "_strftime",
        "_sigsuspend",
        "_sigprocmask",
        "_sigemptyset",
        "_sigaddset",
        "_sigaction",
        "_setitimer",
        "_setgroups",
        "_setgrent",
        "_sem_wait",
        "_sem_post",
        "_sem_init",
        "_sched_yield",
        "_raise",
        "_mktime",
        "_localtime",
        "_llvm_stacksave",
        "_llvm_stackrestore",
        "_kill",
        "_gmtime_r",
        "_getgrent",
        "_getaddrinfo",
        "_fork",
        "_exit",
        "_execve",
        "_endgrent",
        "___syscall97",
        "___syscall91",
        "___syscall85",
        "___syscall75",
        "___syscall66",
        "___syscall63",
        "___syscall60",
        "___syscall39",
        "___syscall38",
        "___syscall340",
        "___syscall334",
        "___syscall300",
        "___syscall295",
        "___syscall272",
        "___syscall268",
        "___syscall220",
        "___syscall212",
        "___syscall201",
        "___syscall199",
        "___syscall197",
        "___syscall196",
        "___syscall195",
        "___syscall194",
        "___syscall191",
        "___syscall181",
        "___syscall180",
        "___syscall168",
        "___syscall142",
        "___syscall102",
        "___syscall15",
        "___syscall10",
    ]
}

/// The symbols that are declared by the toolchain but only stubbed here.
pub fn mocked_symbols() -> (r: Vec<&'static str>)
    ensures
        r@ == spec_mocked_symbols(),
{
    vec![
        "_waitpid",
        "_utimes",
        "_usleep",
        "_time",
        "_sysconf",
        "_strftime",
        "_sigsuspend",
        "_sigprocmask",
        "_sigemptyset",
        "_sigaddset",
        "_sigaction",
        "_setitimer",
        "_setgroups",
        "_setgrent",
        "_sem_wait",
        "_sem_post",
        "_sem_init",
        "_sched_yield",
        "_raise",
        "_mktime",
        "_localtime",
        "_llvm_stacksave",
        "_llvm_stackrestore",
        "_kill",
        "_gmtime_r",
        "_getgrent",
        "_getaddrinfo",
        "_fork",
        "_exit",
        "_execve",
        "_endgrent",
        "___syscall97",
        "___syscall91",
        "___syscall85",
        "___syscall75",
        "___syscall66",
        "___syscall63",
        "___syscall60",
        "___syscall39",
        "___syscall38",
        "___syscall340",
        "___syscall334",
        "___syscall300",
        "___syscall295",
        "___syscall272",
        "___syscall268",
        "___syscall220",
        "___syscall212",
        "___syscall201",
        "___syscall199",
        "___syscall197",
        "___syscall196",
        "___syscall195",
        "___syscall194",
        "___syscall191",
        "___syscall181",
        "___syscall180",
        "___syscall168",
        "___syscall142",
        "___syscall102",
        "___syscall15",
        "___syscall10",
    ]
}

} // verus!
