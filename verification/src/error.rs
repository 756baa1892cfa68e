use vstd::prelude::*;

verus! {

/// Status code of a runtime error.
pub const LUA_ERRRUN: i32 = 2;
/// Status code of a syntax error during precompilation.
pub const LUA_ERRSYNTAX: i32 = 3;
/// Status code of a memory allocation error.
pub const LUA_ERRMEM: i32 = 4;
/// Status code of an error while running the message handler.
pub const LUA_ERRERR: i32 = 5;
/// Status code of a file-related error.
pub const LUA_ERRFILE: i32 = 6;

/// Whether `code` is one of the error statuses that the Lua C API reports.
pub open spec fn is_error_status(code: int) -> bool {
    LUA_ERRRUN <= code <= LUA_ERRFILE
}

/// An error status that a call of the Lua C API returned.
#[derive(Debug, Clone, Copy, PartialEq, Eq, Structural)]
pub enum Error {
    /// a runtime error.
    Run,
    /// memory allocation error. For such errors, Lua does not call the message handler.
    Mem,
    /// error while running the message handler.
    Handler,
    /// syntax error during precompilation.
    Syntax,
    /// a file-related error; e.g., it cannot open or read the file.
    File,
}

impl Error {
    /// The status code that Lua uses for this error.
    pub open spec fn spec_code(self) -> int {
        match self {
            Error::Run => LUA_ERRRUN as int,
            Error::Mem => LUA_ERRMEM as int,
            Error::Handler => LUA_ERRERR as int,
            Error::Syntax => LUA_ERRSYNTAX as int,
            Error::File => LUA_ERRFILE as int,
        }
    }

    /// Maps an error status returned by the Lua C API to an [Error].
    pub fn from(value: i32) -> (e: Error)
        requires
            is_error_status(value as int),
        ensures
            e == Error::spec_from_code(value as int),
            e.spec_code() == value,
    {
        if value == LUA_ERRRUN {
            Error::Run
        } else if value == LUA_ERRMEM {
            Error::Mem
        } else if value == LUA_ERRERR {
            Error::Handler
        } else if value == LUA_ERRSYNTAX {
            Error::Syntax
        } else {
            Error::File
        }
    }
}

impl Error {
    /// The error with the given error status.
    pub open spec fn spec_from_code(code: int) -> Error {
        if code == LUA_ERRRUN {
            Error::Run
        } else if code == LUA_ERRMEM {
            Error::Mem
        } else if code == LUA_ERRERR {
            Error::Handler
        } else if code == LUA_ERRSYNTAX {
            Error::Syntax
        } else {
            Error::File
        }
    }

    /// How the error is displayed: the name of its status (`Err` for an error
    /// in the message handler).
    pub fn name(&self) -> (name: &'static str)
        ensures
            name@ == self.spec_name(),
    {
        proof {
            reveal_strlit("Run");
            reveal_strlit("Mem");
            reveal_strlit("Err");
            reveal_strlit("Syntax");
            reveal_strlit("File");
        }
        match self {
            Error::Run => "Run",
            Error::Mem => "Mem",
            Error::Handler => "Err",
            Error::Syntax => "Syntax",
            Error::File => "File",
        }
    }

    /// The name of the error.
    pub open spec fn spec_name(self) -> Seq<char> {
        match self {
            Error::Run => seq!['R', 'u', 'n'],
            Error::Mem => seq!['M', 'e', 'm'],
            Error::Handler => seq!['E', 'r', 'r'],
            Error::Syntax => seq!['S', 'y', 'n', 't', 'a', 'x'],
            Error::File => seq!['F', 'i', 'l', 'e'],
        }
    }
}

/// The status code of a call that succeeded.
pub const LUA_OK: i32 = 0;

/// Turns the status that a call of the Lua C API returned into a result:
/// `Ok` for `LUA_OK`, else the error with that status.
pub fn check_status(status: i32) -> (r: Result<(), Error>)
    requires
        status == LUA_OK || is_error_status(status as int),
    ensures
        r is Ok <==> status == LUA_OK,
        r matches Err(e) ==> e.spec_code() == status,
{
    if status != LUA_OK {
        return Err(Error::from(status));
    }
    Ok(())
}

/// Each error has its own code, and the error read back from the code of an error is that error.
pub proof fn law_error_code(e: Error, code: int)
    ensures
        Error::spec_from_code(e.spec_code()) == e,
        is_error_status(e.spec_code()),
        is_error_status(code) ==> Error::spec_from_code(code).spec_code() == code,
{
}

} // verus!
