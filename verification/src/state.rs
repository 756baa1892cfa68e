use vstd::prelude::*;

use crate::lua_core::{law_pop, pop_op};
use crate::stack::{apply_op, op_allowed, LuaValue, StackOp};
use vstd::string::StringSliceAdditionalSpecFns;

verus! {

/// Which kinds of chunks a load accepts.
#[derive(Debug, Clone, Copy, PartialEq, Eq, Structural)]
pub enum LoadMode {
    BinaryChunks,
    TextChunks,
    BinaryTextChunks,
}

impl LoadMode {
    /// The mode string that `lua_load` reads.
    pub open spec fn spec_str(self) -> Seq<char> {
        match self {
            LoadMode::BinaryChunks => seq!['b'],
            LoadMode::TextChunks => seq!['t'],
            LoadMode::BinaryTextChunks => seq!['b', 't'],
        }
    }

    /// The mode string that `lua_load` reads: "b", "t" or "bt".
    pub fn as_str(&self) -> (s: &'static str)
        ensures
            s@ == self.spec_str(),
    {
        proof {
            reveal_strlit("b");
            reveal_strlit("t");
            reveal_strlit("bt");
        }
        match self {
            Self::BinaryChunks => "b",
            Self::TextChunks => "t",
            Self::BinaryTextChunks => "bt",
        }
    }
}

impl Default for LoadMode {
    /// Both binary and text chunks.
    fn default() -> (mode: Self)
        ensures
            mode == LoadMode::BinaryTextChunks,
    {
        LoadMode::BinaryTextChunks
    }
}

/// The arguments of a load of a chunk: its bytes, its name (used for debug
/// information and error messages) and the mode string handed to `lua_load`
/// (`None` hands it none, which Lua reads as "bt").
#[derive(Debug, Clone, PartialEq, Eq)]
pub struct LoadRequest {
    pub chunk: Vec<u8>,
    pub name: String,
    pub mode: Option<LoadMode>,
}

/// The first `n` bytes of a slice, in a vector of their own.
pub(crate) fn copy_prefix(bytes: &[u8], n: usize) -> (v: Vec<u8>)
    requires
        n <= bytes@.len(),
    ensures
        v@ == bytes@.take(n as int),
{
    let mut v: Vec<u8> = Vec::new();
    let mut i: usize = 0;
    while i < n
        invariant
            i <= n <= bytes@.len(),
            v@ == bytes@.take(i as int),
        decreases n - i,
    {
        v.push(bytes[i]);
        i = i + 1;
        assert(v@ =~= bytes@.take(i as int));
    }
    v
}

/// The bytes of a slice, in a vector of their own.
pub(crate) fn copy_bytes(bytes: &[u8]) -> (v: Vec<u8>)
    ensures
        v@ == bytes@,
{
    let v = copy_prefix(bytes, bytes.len());
    assert(bytes@.take(bytes@.len() as int) =~= bytes@);
    v
}

/// The mode a load uses: the one given, or both binary and text chunks.
pub open spec fn resolved_mode(mode: Option<LoadMode>) -> LoadMode {
    match mode {
        Some(m) => m,
        None => LoadMode::BinaryTextChunks,
    }
}

/// Whether `request` loads the chunk `buff` under the name `name` with the
/// mode `mode` resolves to.
pub open spec fn loads(request: LoadRequest, buff: Seq<u8>, name: Seq<char>, mode: Option<LoadMode>) -> bool {
    &&& request.chunk@ == buff
    &&& request.name@ == name
    &&& request.mode == Some(resolved_mode(mode))
}

/// A Lua state, named by the non-null handle of its `lua_State`.
pub struct State {
    handle: usize,
}

impl View for State {
    type V = usize;

    closed spec fn view(&self) -> usize {
        self.handle
    }
}

impl State {
    #[verifier::type_invariant]
    spec fn handle_not_null(self) -> bool {
        self.handle != 0
    }

    /// The state with the handle of a `lua_State` that `luaL_newstate` created;
    /// a null handle (out of memory) is refused.
    pub fn new(handle: usize) -> (state: State)
        requires
            handle != 0,
        ensures
            state@ == handle,
    {
        State { handle }
    }

    /// The handle of the state's `lua_State`.
    pub fn handle(&self) -> (handle: usize)
        ensures
            handle == self@,
            handle != 0,
    {
        proof {
            use_type_invariant(self);
        }
        self.handle
    }

    /// Equivalent to [load_buffer_with_mode](State::load_buffer_with_mode) on the
    /// string's bytes with mode equal to None. The name may not hold a zero byte.
    pub fn load_buffer(&self, buff: &str, name: &str) -> (request: LoadRequest)
        requires
            !name.spec_bytes().contains(0u8),
        ensures
            loads(request, buff.spec_bytes(), name@, None),
            request.chunk@ == buff.spec_bytes(),
            request.name@ == name@,
            request.mode == Some(LoadMode::BinaryTextChunks),
    {
        self.load_buffer_with_mode(buff.as_bytes(), name, None)
    }

    /// Loads a buffer as a Lua chunk, with the given mode, or both binary and
    /// text chunks where none is given. The chunk is handed over by its length,
    /// so it may hold any bytes; `name` is the chunk name, used for debug
    /// information and error messages, and may not hold a zero byte.
    pub fn load_buffer_with_mode(&self, buff: &[u8], name: &str, mode: Option<LoadMode>) -> (request: LoadRequest)
        requires
            !name.spec_bytes().contains(0u8),
        ensures
            loads(request, buff@, name@, mode),
            request.chunk@ == buff@,
            request.name@ == name@,
            mode matches Some(m) ==> request.mode == Some(m),
            mode is None ==> request.mode == Some(LoadMode::BinaryTextChunks),
    {
        let mode = match mode {
            Some(m) => m,
            None => LoadMode::default(),
        };
        LoadRequest { chunk: copy_bytes(buff), name: name.to_owned(), mode: Some(mode) }
    }

    /// Pops `n` elements from a stack of `top` elements: sets the top to `top - n`.
    pub fn pop(&self, n: u32, top: u32) -> (op: StackOp)
        requires
            n <= top <= i32::MAX,
        ensures
            op == StackOp::SetTop((top - n) as i32),
    {
        StackOp::SetTop((top - n) as i32)
    }
}

/// Popping `n` values from a stack that holds `top` values leaves its `top - n`
/// bottom values, as popping through [lua_core::pop](crate::lua_core::pop) does.
pub proof fn law_state_pop(s: Seq<LuaValue>, n: u32)
    requires
        n <= s.len() <= i32::MAX,
    ensures
        op_allowed(s, StackOp::SetTop((s.len() - n) as i32)),
        apply_op(s, StackOp::SetTop((s.len() - n) as i32)) == s.take(s.len() - n),
        apply_op(s, StackOp::SetTop((s.len() - n) as i32)) == apply_op(s, pop_op(n as int)),
{
    law_pop(s, n as i32);
    assert(apply_op(s, StackOp::SetTop((s.len() - n) as i32)) =~= s.take(s.len() - n));
}

/// Popping `a` values and then `b` values leaves the stack that popping `a + b`
/// values at once leaves, and popping no value leaves the stack as it is.
pub proof fn law_state_pop_compose(s: Seq<LuaValue>, a: u32, b: u32)
    requires
        a + b <= s.len() <= i32::MAX,
    ensures
        apply_op(apply_op(s, StackOp::SetTop((s.len() - a) as i32)), StackOp::SetTop(((s.len() - a) - b) as i32))
            == apply_op(s, StackOp::SetTop((s.len() - (a + b)) as i32)),
        apply_op(s, StackOp::SetTop((s.len() - 0) as i32)) == s,
{
    law_state_pop(s, a);
    let t = apply_op(s, StackOp::SetTop((s.len() - a) as i32));
    law_state_pop(t, b);
    assert(s.take(s.len() - a).take(s.len() - a - b) =~= s.take(s.len() - (a + b)));
    law_state_pop(s, 0);
    assert(s.take(s.len() as int) =~= s);
}

/// Loading with no mode is loading with both binary and text chunks.
pub proof fn law_load_default_mode(request: LoadRequest, buff: Seq<u8>, name: Seq<char>)
    ensures
        loads(request, buff, name, None) == loads(request, buff, name, Some(LoadMode::BinaryTextChunks)),
{
}

/// A load with a given mode hands that very mode to Lua, for every mode (a text
/// mode is read as "t"), and
/// keeps the chunk and the name as they were given; only a load with no mode
/// uses both binary and text chunks.
pub proof fn law_load_keeps_mode(request: LoadRequest, buff: Seq<u8>, name: Seq<char>, mode: Option<LoadMode>)
    requires
        loads(request, buff, name, mode),
    ensures
        request.chunk@ == buff,
        request.name@ == name,
        mode matches Some(m) ==> request.mode == Some(m),
        mode is None ==> request.mode == Some(LoadMode::BinaryTextChunks),
        mode == Some(LoadMode::TextChunks) ==> request.mode.unwrap().spec_str() == seq!['t'],
{
}

} // verus!
