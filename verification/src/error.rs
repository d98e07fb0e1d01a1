//! AMX runtime error codes (the `AMX_ERR_*` values of amx.h).
use vstd::prelude::*;
use vstd::string::StringExecFns;

verus! {

/// AMX runtime error codes.
///
/// Each variant stands for the `AMX_ERR_*` constant of the same name;
/// `AmxError::code` gives its integer value.
#[derive(Debug, Clone, Copy, PartialEq, Eq, Structural, Hash)]
pub enum AmxError {
    /// No error — operation succeeded.
    NoError,
    /// Forced exit.
    Exit,
    /// Assertion failed.
    Assert,
    /// Stack/heap collision.
    StackErr,
    /// Index out of bounds.
    Bounds,
    /// Invalid memory access.
    MemAccess,
    /// Invalid instruction.
    InvInstr,
    /// Stack underflow.
    StackLow,
    /// Heap underflow.
    HeapLow,
    /// No callback, or invalid callback.
    Callback,
    /// Native function failed.
    Native,
    /// Divide by zero.
    Divide,
    /// Go into sleep mode — code can be restarted.
    Sleep,
    /// Invalid state for this access.
    InvState,
    /// Out of memory.
    Memory,
    /// Invalid file format.
    Format,
    /// File is for a newer version of the AMX.
    Version,
    /// Function not found.
    NotFound,
    /// Invalid index parameter (bad entry point).
    Index,
    /// Debugger cannot run.
    Debug,
    /// AMX not initialized (or doubly initialized).
    Init,
    /// Unable to set user data field (table full).
    UserData,
    /// Cannot initialize the JIT.
    InitJit,
    /// Parameter error.
    Params,
    /// Domain error — expression result out of range.
    Domain,
    /// General error (unknown or unspecific).
    General,
}

impl AmxError {
    /// The C value `AMX_ERR_*` of each error.
    pub open spec fn code(self) -> i32 {
        match self {
            AmxError::NoError => 0,
            AmxError::Exit => 1,
            AmxError::Assert => 2,
            AmxError::StackErr => 3,
            AmxError::Bounds => 4,
            AmxError::MemAccess => 5,
            AmxError::InvInstr => 6,
            AmxError::StackLow => 7,
            AmxError::HeapLow => 8,
            AmxError::Callback => 9,
            AmxError::Native => 10,
            AmxError::Divide => 11,
            AmxError::Sleep => 12,
            AmxError::InvState => 13,
            AmxError::Memory => 16,
            AmxError::Format => 17,
            AmxError::Version => 18,
            AmxError::NotFound => 19,
            AmxError::Index => 20,
            AmxError::Debug => 21,
            AmxError::Init => 22,
            AmxError::UserData => 23,
            AmxError::InitJit => 24,
            AmxError::Params => 25,
            AmxError::Domain => 26,
            AmxError::General => 27,
        }
    }

    /// The codes that name an error: 0 to 13 and 16 to 27
    /// (14 and 15 are unassigned in amx.h).
    pub open spec fn is_defined_code(code: int) -> bool {
        (0 <= code <= 13) || (16 <= code <= 27)
    }

    /// `e` is what the raw code `code` stands for: the error with that
    /// code, or `General` where the code names no error.
    pub open spec fn decodes_to(code: int, e: AmxError) -> bool {
        &&& Self::is_defined_code(code) ==> e.code() == code
        &&& !Self::is_defined_code(code) ==> e == AmxError::General
    }

    /// Convert a raw C error code to an `AmxError`.
    ///
    /// Returns the error whose code is `code`, and `General` for any
    /// value that names no error.
    pub fn from_raw(code: i32) -> (e: Self)
        ensures
            Self::decodes_to(code as int, e),
    {
        match code {
            0 => AmxError::NoError,
            1 => AmxError::Exit,
            2 => AmxError::Assert,
            3 => AmxError::StackErr,
            4 => AmxError::Bounds,
            5 => AmxError::MemAccess,
            6 => AmxError::InvInstr,
            7 => AmxError::StackLow,
            8 => AmxError::HeapLow,
            9 => AmxError::Callback,
            10 => AmxError::Native,
            11 => AmxError::Divide,
            12 => AmxError::Sleep,
            13 => AmxError::InvState,
            16 => AmxError::Memory,
            17 => AmxError::Format,
            18 => AmxError::Version,
            19 => AmxError::NotFound,
            20 => AmxError::Index,
            21 => AmxError::Debug,
            22 => AmxError::Init,
            23 => AmxError::UserData,
            24 => AmxError::InitJit,
            25 => AmxError::Params,
            26 => AmxError::Domain,
            _ => AmxError::General,
        }
    }

    /// Returns `true` if the error code indicates success.
    pub fn is_ok(self) -> (ok: bool)
        ensures
            ok == (self == AmxError::NoError),
    {
        match self {
            AmxError::NoError => true,
            _ => false,
        }
    }

    /// Returns the raw integer error code.
    pub fn as_raw(self) -> (code: i32)
        ensures
            code == self.code(),
    {
        match self {
            AmxError::NoError => 0,
            AmxError::Exit => 1,
            AmxError::Assert => 2,
            AmxError::StackErr => 3,
            AmxError::Bounds => 4,
            AmxError::MemAccess => 5,
            AmxError::InvInstr => 6,
            AmxError::StackLow => 7,
            AmxError::HeapLow => 8,
            AmxError::Callback => 9,
            AmxError::Native => 10,
            AmxError::Divide => 11,
            AmxError::Sleep => 12,
            AmxError::InvState => 13,
            AmxError::Memory => 16,
            AmxError::Format => 17,
            AmxError::Version => 18,
            AmxError::NotFound => 19,
            AmxError::Index => 20,
            AmxError::Debug => 21,
            AmxError::Init => 22,
            AmxError::UserData => 23,
            AmxError::InitJit => 24,
            AmxError::Params => 25,
            AmxError::Domain => 26,
            AmxError::General => 27,
        }
    }

    /// The human-readable description of each error.
    pub open spec fn description(self) -> Seq<char> {
        match self {
            AmxError::NoError => "no error"@,
            AmxError::Exit => "forced exit"@,
            AmxError::Assert => "assertion failed"@,
            AmxError::StackErr => "stack/heap collision"@,
            AmxError::Bounds => "index out of bounds"@,
            AmxError::MemAccess => "invalid memory access"@,
            AmxError::InvInstr => "invalid instruction"@,
            AmxError::StackLow => "stack underflow"@,
            AmxError::HeapLow => "heap underflow"@,
            AmxError::Callback => "no or invalid callback"@,
            AmxError::Native => "native function failed"@,
            AmxError::Divide => "divide by zero"@,
            AmxError::Sleep => "sleep mode"@,
            AmxError::InvState => "invalid state"@,
            AmxError::Memory => "out of memory"@,
            AmxError::Format => "invalid file format"@,
            AmxError::Version => "version mismatch"@,
            AmxError::NotFound => "function not found"@,
            AmxError::Index => "invalid index"@,
            AmxError::Debug => "debugger error"@,
            AmxError::Init => "initialization error"@,
            AmxError::UserData => "user data table full"@,
            AmxError::InitJit => "JIT initialization failed"@,
            AmxError::Params => "parameter error"@,
            AmxError::Domain => "domain error"@,
            AmxError::General => "general error"@,
        }
    }

    /// The human-readable description of the error.
    pub fn message(self) -> (msg: &'static str)
        ensures
            msg@ == self.description(),
    {
        match self {
            AmxError::NoError => "no error",
            AmxError::Exit => "forced exit",
            AmxError::Assert => "assertion failed",
            AmxError::StackErr => "stack/heap collision",
            AmxError::Bounds => "index out of bounds",
            AmxError::MemAccess => "invalid memory access",
            AmxError::InvInstr => "invalid instruction",
            AmxError::StackLow => "stack underflow",
            AmxError::HeapLow => "heap underflow",
            AmxError::Callback => "no or invalid callback",
            AmxError::Native => "native function failed",
            AmxError::Divide => "divide by zero",
            AmxError::Sleep => "sleep mode",
            AmxError::InvState => "invalid state",
            AmxError::Memory => "out of memory",
            AmxError::Format => "invalid file format",
            AmxError::Version => "version mismatch",
            AmxError::NotFound => "function not found",
            AmxError::Index => "invalid index",
            AmxError::Debug => "debugger error",
            AmxError::Init => "initialization error",
            AmxError::UserData => "user data table full",
            AmxError::InitJit => "JIT initialization failed",
            AmxError::Params => "parameter error",
            AmxError::Domain => "domain error",
            AmxError::General => "general error",
        }
    }

    /// The text shown for the error: `AMX error: ` followed by its
    /// description.
    pub fn to_display_string(self) -> (text: String)
        ensures
            text@ == "AMX error: "@ + self.description(),
    {
        let mut text = String::from_str("AMX error: ");
        text.append(self.message());
        text
    }
}

/// Every error has a defined code, and no two errors share one.
pub proof fn law_code_injective(a: AmxError, b: AmxError)
    ensures
        AmxError::is_defined_code(a.code() as int),
        a.code() == b.code() ==> a == b,
{
}

/// A raw code stands for exactly one error.
pub proof fn law_decode_unique(code: int, a: AmxError, b: AmxError)
    requires
        AmxError::decodes_to(code, a),
        AmxError::decodes_to(code, b),
    ensures
        a == b,
{
}

/// Converting an error to its raw code and back gives the same error:
/// `from_raw(e.as_raw()) == e`.
pub proof fn law_raw_round_trip(e: AmxError, back: AmxError)
    requires
        AmxError::decodes_to(e.code() as int, back),
    ensures
        back == e,
{
}

/// The raw code of a decoded error is the code it came from, for every
/// code that names an error; every other code decodes to `General`,
/// whose code is 27.
pub proof fn law_code_round_trip(code: int, e: AmxError)
    requires
        AmxError::decodes_to(code, e),
    ensures
        AmxError::is_defined_code(code) <==> e.code() == code,
{
}

/// Only the code 0 decodes to success.
pub proof fn law_success_is_zero(code: int, e: AmxError)
    requires
        AmxError::decodes_to(code, e),
    ensures
        (e == AmxError::NoError) <==> code == 0,
{
}

/// No two errors share a description, so each has its own display text.
pub proof fn law_descriptions_distinct(a: AmxError, b: AmxError)
    requires
        a != b,
    ensures
        a.description() != b.description(),
        "AMX error: "@ + a.description() != "AMX error: "@ + b.description(),
{
    reveal_strlit("no error");
    reveal_strlit("forced exit");
    reveal_strlit("assertion failed");
    reveal_strlit("stack/heap collision");
    reveal_strlit("index out of bounds");
    reveal_strlit("invalid memory access");
    reveal_strlit("invalid instruction");
    reveal_strlit("stack underflow");
    reveal_strlit("heap underflow");
    reveal_strlit("no or invalid callback");
    reveal_strlit("native function failed");
    reveal_strlit("divide by zero");
    reveal_strlit("sleep mode");
    reveal_strlit("invalid state");
    reveal_strlit("out of memory");
    reveal_strlit("invalid file format");
    reveal_strlit("version mismatch");
    reveal_strlit("function not found");
    reveal_strlit("invalid index");
    reveal_strlit("debugger error");
    reveal_strlit("initialization error");
    reveal_strlit("user data table full");
    reveal_strlit("JIT initialization failed");
    reveal_strlit("parameter error");
    reveal_strlit("domain error");
    reveal_strlit("general error");
    let da = a.description();
    let db = b.description();
    let prefix = "AMX error: "@;
    if da == db {
        assert(da.len() == db.len());
        assert(da[0] == db[0] && da[1] == db[1] && da[2] == db[2] && da[3] == db[3] && da[4] == db[4] && da[5] == db[5] && da[6] == db[6] && da[7] == db[7] && da[8] == db[8] && da[9] == db[9] && da[10] == db[10] && da[11] == db[11]);
        assert(false);
    }
    if prefix + da == prefix + db {
        assert((prefix + da).subrange(prefix.len() as int, (prefix + da).len() as int) =~= da);
        assert((prefix + db).subrange(prefix.len() as int, (prefix + db).len() as int) =~= db);
    }
}

} // verus!
