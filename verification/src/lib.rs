//! Safe bindings to Lua.
//!
//! A Lua state is reached through a connection, a handle that names the
//! `lua_State` the C API works on. The decisions that the bindings take around
//! each C call are stated and proved here: how status and type codes map to
//! [Error], [LuaError] and [LuaType], which load mode a chunk is loaded with,
//! and which primitive stack operations realize `pop`, `remove`, `insert` and
//! `replace` ([stack] holds the model of the value stack they are proved on).
use vstd::prelude::*;

pub mod error;
pub mod lua_aux;
pub mod lua_core;
pub mod lua_lib;
pub mod stack;
pub mod state;
/// Default lua wrapper.
pub mod wrapper;

pub use wrapper::{check_for_err, LuaError, LuaType, State};

verus! {

/// A connection to a Lua state: the handle (the address) of its `lua_State`.
#[derive(Debug, Clone, Copy)]
pub struct LuaConnection {
    handle: usize,
}

impl View for LuaConnection {
    type V = usize;

    closed spec fn view(&self) -> usize {
        self.handle
    }
}

impl LuaConnection {
    /// The handle of the `lua_State` this connection names.
    pub fn get_mut_ptr(&self) -> (handle: usize)
        ensures
            handle == self@,
    {
        self.handle
    }

    /// The connection to the `lua_State` with the given handle, which must not be null.
    pub fn from_raw(handle: usize) -> (conn: Self)
        requires
            handle != 0,
        ensures
            conn@ == handle,
    {
        LuaConnection { handle }
    }

    /// A reference to the state this connection names.
    pub fn borrow(self) -> (state: LuaStateRef)
        ensures
            state@ == self@,
    {
        LuaStateRef(self)
    }
}

/// Access to the connection of a Lua state; [lua_core](crate::lua_core),
/// [lua_aux](crate::lua_aux) and [lua_lib](crate::lua_lib) decide what is done
/// through it.
pub trait LuaConn {
    fn get_conn(&self) -> LuaConnection;
}

/// A borrowed Lua state.
#[derive(Debug, Clone, Copy)]
pub struct LuaStateRef(LuaConnection);

impl View for LuaStateRef {
    type V = usize;

    closed spec fn view(&self) -> usize {
        self.0@
    }
}

impl LuaConn for LuaStateRef {
    fn get_conn(&self) -> (conn: LuaConnection)
        ensures
            conn@ == self@,
    {
        self.0
    }
}

impl From<LuaConnection> for LuaStateRef {
    fn from(value: LuaConnection) -> (state: Self)
        ensures
            state@ == value@,
    {
        LuaStateRef(value)
    }
}

impl vstd::std_specs::convert::FromSpecImpl<LuaConnection> for LuaStateRef {
    open spec fn obeys_from_spec() -> bool {
        true
    }

    closed spec fn from_spec(v: LuaConnection) -> Self {
        LuaStateRef(v)
    }
}

/// A Lua state named by a handle that may be null.
#[derive(Debug, Clone, Copy)]
pub struct LuaStatePtr(usize);

impl View for LuaStatePtr {
    type V = usize;

    closed spec fn view(&self) -> usize {
        self.0
    }
}

impl LuaStatePtr {
    /// The connection to the state; the handle must not be null.
    pub fn get_conn(&self) -> (conn: LuaConnection)
        requires
            self@ != 0,
        ensures
            conn@ == self@,
    {
        LuaConnection { handle: self.0 }
    }

    /// The connection to the state, or `None` where the handle is null.
    pub fn try_get_conn(&self) -> (conn: Option<LuaConnection>)
        ensures
            conn is None <==> self@ == 0,
            conn matches Some(c) ==> c@ == self@,
    {
        if self.0 == 0 {
            None
        } else {
            Some(self.get_conn())
        }
    }
}

impl From<usize> for LuaStatePtr {
    fn from(value: usize) -> (ptr: Self)
        ensures
            ptr@ == value,
    {
        LuaStatePtr(value)
    }
}

impl vstd::std_specs::convert::FromSpecImpl<usize> for LuaStatePtr {
    open spec fn obeys_from_spec() -> bool {
        true
    }

    closed spec fn from_spec(v: usize) -> Self {
        LuaStatePtr(v)
    }
}

} // verus!
