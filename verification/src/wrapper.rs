use vstd::prelude::*;

use crate::error::{is_error_status, LUA_OK, LUA_ERRERR, LUA_ERRFILE, LUA_ERRMEM, LUA_ERRRUN, LUA_ERRSYNTAX};
use crate::{LuaConn, LuaConnection};

verus! {


/// An error status of the Lua C API. The variants are ordered as their codes are.
#[derive(Debug, Clone, Copy, PartialEq, Eq, PartialOrd, Ord, Structural)]
pub enum LuaError {
    /// a runtime error.
    Run,
    /// syntax error during precompilation.
    Syntax,
    /// memory allocation error.
    Mem,
    /// error while running the message handler.
    Handler,
    /// a file-related error.
    File,
}

impl LuaError {
    /// The status code of this error.
    pub open spec fn spec_code(self) -> int {
        match self {
            LuaError::Run => LUA_ERRRUN as int,
            LuaError::Syntax => LUA_ERRSYNTAX as int,
            LuaError::Mem => LUA_ERRMEM as int,
            LuaError::Handler => LUA_ERRERR as int,
            LuaError::File => LUA_ERRFILE as int,
        }
    }

    /// The error with the given error status.
    pub open spec fn spec_from_code(code: int) -> LuaError {
        if code == LUA_ERRRUN {
            LuaError::Run
        } else if code == LUA_ERRSYNTAX {
            LuaError::Syntax
        } else if code == LUA_ERRMEM {
            LuaError::Mem
        } else if code == LUA_ERRERR {
            LuaError::Handler
        } else {
            LuaError::File
        }
    }

    /// The status code of this error.
    pub fn code(self) -> (code: i32)
        ensures
            code == self.spec_code(),
    {
        match self {
            LuaError::Run => LUA_ERRRUN,
            LuaError::Syntax => LUA_ERRSYNTAX,
            LuaError::Mem => LUA_ERRMEM,
            LuaError::Handler => LUA_ERRERR,
            LuaError::File => LUA_ERRFILE,
        }
    }

    /// The error with the given error status.
    pub fn from_code(code: i32) -> (e: LuaError)
        requires
            is_error_status(code as int),
        ensures
            e == LuaError::spec_from_code(code as int),
            e.spec_code() == code,
    {
        if code == LUA_ERRRUN {
            LuaError::Run
        } else if code == LUA_ERRSYNTAX {
            LuaError::Syntax
        } else if code == LUA_ERRMEM {
            LuaError::Mem
        } else if code == LUA_ERRERR {
            LuaError::Handler
        } else {
            LuaError::File
        }
    }
}

/// Turns the status that a call of the Lua C API returned into a result:
/// `Ok` for `LUA_OK`, else the error with that status.
pub fn check_for_err(status: i32) -> (r: Result<(), LuaError>)
    requires
        status == LUA_OK || is_error_status(status as int),
    ensures
        r is Ok <==> status == LUA_OK,
        r matches Err(e) ==> e.spec_code() == status,
{
    if status != LUA_OK {
        return Err(LuaError::from_code(status));
    }
    Ok(())
}

/// Each error has its own code, and the error read back from the code of an error is that error.
pub proof fn law_lua_error_code(e: LuaError, code: int)
    ensures
        LuaError::spec_from_code(e.spec_code()) == e,
        is_error_status(e.spec_code()),
        is_error_status(code) ==> LuaError::spec_from_code(code).spec_code() == code,
{
}

/// The type of a value on the Lua stack. The variants are ordered as their codes are.
#[derive(Debug, Clone, Copy, PartialEq, Eq, PartialOrd, Ord, Structural)]
pub enum LuaType {
    /// `LUA_TNONE`: an acceptable index that holds no value.
    NoValue,
    Nil,
    Boolean,
    LightUserData,
    Number,
    String,
    Table,
    Function,
    UserData,
    Thread,
}

impl LuaType {
    /// The code that `lua_type` uses for this type.
    pub open spec fn spec_code(self) -> int {
        match self {
            LuaType::NoValue => -1,
            LuaType::Nil => 0,
            LuaType::Boolean => 1,
            LuaType::LightUserData => 2,
            LuaType::Number => 3,
            LuaType::String => 4,
            LuaType::Table => 5,
            LuaType::Function => 6,
            LuaType::UserData => 7,
            LuaType::Thread => 8,
        }
    }

    /// The type with the given code.
    pub open spec fn spec_from_code(code: int) -> LuaType {
        if code == 0 {
            LuaType::Nil
        } else if code == 1 {
            LuaType::Boolean
        } else if code == 2 {
            LuaType::LightUserData
        } else if code == 3 {
            LuaType::Number
        } else if code == 4 {
            LuaType::String
        } else if code == 5 {
            LuaType::Table
        } else if code == 6 {
            LuaType::Function
        } else if code == 7 {
            LuaType::UserData
        } else if code == 8 {
            LuaType::Thread
        } else {
            LuaType::NoValue
        }
    }

    /// The code that `lua_type` uses for this type.
    pub fn code(self) -> (code: i32)
        ensures
            code == self.spec_code(),
    {
        match self {
            LuaType::NoValue => -1,
            LuaType::Nil => 0,
            LuaType::Boolean => 1,
            LuaType::LightUserData => 2,
            LuaType::Number => 3,
            LuaType::String => 4,
            LuaType::Table => 5,
            LuaType::Function => 6,
            LuaType::UserData => 7,
            LuaType::Thread => 8,
        }
    }

    /// The type that a code reported by `lua_type` (from -1 to 8) stands for.
    pub fn from_code(code: i32) -> (t: LuaType)
        requires
            -1 <= code <= 8,
        ensures
            t == LuaType::spec_from_code(code as int),
            t.spec_code() == code,
    {
        match code {
            0 => LuaType::Nil,
            1 => LuaType::Boolean,
            2 => LuaType::LightUserData,
            3 => LuaType::Number,
            4 => LuaType::String,
            5 => LuaType::Table,
            6 => LuaType::Function,
            7 => LuaType::UserData,
            8 => LuaType::Thread,
            _ => LuaType::NoValue,
        }
    }
}

impl LuaType {
    /// Whether this is the type of nil.
    pub fn is_nil(self) -> (b: bool)
        ensures
            b == (self == LuaType::Nil),
    {
        self == LuaType::Nil
    }

    /// Whether this is the type of booleans.
    pub fn is_boolean(self) -> (b: bool)
        ensures
            b == (self == LuaType::Boolean),
    {
        self == LuaType::Boolean
    }

    /// Whether this type code is `LUA_TNUMBER`. This tests the code only: a
    /// string convertible to a number has the string type, and whether a value
    /// counts as a number is what `lua_isnumber` answers.
    pub fn is_number(self) -> (b: bool)
        ensures
            b == (self == LuaType::Number),
    {
        self == LuaType::Number
    }

    /// Whether this type code is `LUA_TSTRING`. This tests the code only: a
    /// number has the number type, and whether a value counts as a string is
    /// what `lua_isstring` answers.
    pub fn is_string(self) -> (b: bool)
        ensures
            b == (self == LuaType::String),
    {
        self == LuaType::String
    }

    /// Whether this is the type of tables.
    pub fn is_table(self) -> (b: bool)
        ensures
            b == (self == LuaType::Table),
    {
        self == LuaType::Table
    }

    /// Whether this is the type of functions.
    pub fn is_function(self) -> (b: bool)
        ensures
            b == (self == LuaType::Function),
    {
        self == LuaType::Function
    }
}

/// Each type has its own code, and the type read back from the code of a type is that type.
pub proof fn law_lua_type_code(t: LuaType, code: int)
    ensures
        LuaType::spec_from_code(t.spec_code()) == t,
        -1 <= t.spec_code() <= 8,
        -1 <= code <= 8 ==> LuaType::spec_from_code(code).spec_code() == code,
{
}

/// A Lua state, named by the non-null handle of its `lua_State`.
#[derive(Debug, PartialEq, Eq, PartialOrd, Structural)]
pub struct State {
    handle: usize,
}

impl View for State {
    type V = usize;

    closed spec fn view(&self) -> usize {
        self.handle
    }
}

impl State {
    #[verifier::type_invariant]
    spec fn handle_not_null(self) -> bool {
        self.handle != 0
    }

    /// The state with the handle of a `lua_State` that `luaL_newstate` created;
    /// a null handle (the state could not be created) is refused.
    pub fn new(handle: usize) -> (state: State)
        requires
            handle != 0,
        ensures
            state@ == handle,
    {
        State { handle }
    }
}

impl LuaConn for State {
    fn get_conn(&self) -> (conn: LuaConnection)
        ensures
            conn@ == self@,
    {
        proof {
            use_type_invariant(self);
        }
        LuaConnection::from_raw(self.handle)
    }
}

} // verus!
