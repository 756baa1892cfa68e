use vstd::prelude::*;

verus! {

/// A Lua value as the stack model sees it. Values that Lua compares by
/// reference (tables, functions, userdata, threads) carry an abstract identity;
/// numbers carry an abstract token, since their payload is a float.
pub enum LuaValue {
    Nil,
    Boolean(bool),
    LightUserData(int),
    Number(int),
    String(Seq<u8>),
    Table(int),
    Function(int),
    UserData(int),
    Thread(int),
}

/// The code that `lua_type` reports for a value.
pub open spec fn type_code(v: LuaValue) -> int {
    match v {
        LuaValue::Nil => 0,
        LuaValue::Boolean(_) => 1,
        LuaValue::LightUserData(_) => 2,
        LuaValue::Number(_) => 3,
        LuaValue::String(_) => 4,
        LuaValue::Table(_) => 5,
        LuaValue::Function(_) => 6,
        LuaValue::UserData(_) => 7,
        LuaValue::Thread(_) => 8,
    }
}

/// Whether `idx` names a slot of a stack that holds `len` values: `1` is the
/// bottom and `len` the top; `-1` is the top and `-len` the bottom.
pub open spec fn is_valid_index(len: int, idx: int) -> bool {
    (1 <= idx && idx <= len) || (-len <= idx && idx <= -1)
}

/// The zero-based position, in the sequence of values, of the slot that the
/// valid index `idx` names.
pub open spec fn slot(len: int, idx: int) -> int {
    if idx > 0 {
        idx - 1
    } else {
        len + idx
    }
}

/// What `lua_type` reports at an index: the type code of the value there, or
/// `LUA_TNONE` (-1) for an index that names no value.
pub open spec fn type_at(s: Seq<LuaValue>, idx: int) -> int {
    if is_valid_index(s.len() as int, idx) {
        type_code(s[slot(s.len() as int, idx)])
    } else {
        -1
    }
}

/// A primitive operation of the Lua C API on the value stack.
#[derive(Debug, Clone, PartialEq, Eq)]
pub enum StackOp {
    /// `lua_settop(L, idx)`.
    SetTop(i32),
    /// `lua_rotate(L, idx, n)`.
    Rotate(i32, i32),
    /// `lua_copy(L, fromidx, toidx)`.
    Copy(i32, i32),
    /// `lua_pushvalue(L, idx)`.
    PushValue(i32),
    /// `lua_pushnil(L)`.
    PushNil,
    /// `lua_pushboolean(L, b)`.
    PushBoolean(bool),
    /// `lua_pushnumber(L, n)`, for the float whose bits are given.
    PushNumber(u64),
    /// `lua_pushstring(L, s)`, for a string of the given bytes, none of them zero.
    PushString(Vec<u8>),
    /// `lua_pushcclosure(L, f, 0)`, for the C function at the given address.
    PushCFunction(usize),
    /// `lua_pushlstring(L, s, len)`, for a string of the given bytes, which may be any.
    PushLString(Vec<u8>),
}

/// The number of values that `lua_settop(L, idx)` leaves on a stack of `len`
/// values: `idx` itself for `idx >= 0`, else the slot that `idx` names.
pub open spec fn new_top(len: int, idx: int) -> int {
    if idx >= 0 {
        idx
    } else {
        len + idx + 1
    }
}

/// The stack cut down, or filled up with nil, to `n` values.
pub open spec fn resized(s: Seq<LuaValue>, n: nat) -> Seq<LuaValue> {
    Seq::new(n, |k: int| if k < s.len() { s[k] } else { LuaValue::Nil })
}

/// The values from position `i` up to the top rotated `n` places toward the
/// top (toward the bottom for a negative `n`); the values below `i` stay.
pub open spec fn rotated(s: Seq<LuaValue>, i: int, n: int) -> Seq<LuaValue> {
    Seq::new(
        s.len(),
        |k: int|
            if k < i {
                s[k]
            } else {
                s[i + (k - i - n) % (s.len() - i)]
            },
    )
}

/// Whether the Lua C API accepts `op` on the stack `s`: indices must name
/// slots (pseudo-indices are outside the model), a rotation may not exceed the
/// rotated segment, and a pushed string may not hold a zero byte. Stack space
/// (`lua_checkstack`) is not modeled.
pub open spec fn op_allowed(s: Seq<LuaValue>, op: StackOp) -> bool {
    let len = s.len() as int;
    match op {
        StackOp::SetTop(idx) => idx >= 0 || -(len + 1) <= idx,
        StackOp::Rotate(idx, n) => is_valid_index(len, idx as int) && -(len - slot(len, idx as int)) <= n
            && n <= len - slot(len, idx as int),
        StackOp::Copy(from, to) => is_valid_index(len, from as int) && is_valid_index(
            len,
            to as int,
        ),
        StackOp::PushValue(idx) => is_valid_index(len, idx as int),
        StackOp::PushString(bytes) => !bytes@.contains(0u8),
        _ => true,
    }
}

/// The stack after `op`, as the Lua reference manual describes the operation.
pub open spec fn apply_op(s: Seq<LuaValue>, op: StackOp) -> Seq<LuaValue> {
    let len = s.len() as int;
    match op {
        StackOp::SetTop(idx) => resized(s, new_top(len, idx as int) as nat),
        StackOp::Rotate(idx, n) => rotated(s, slot(len, idx as int), n as int),
        StackOp::Copy(from, to) => s.update(slot(len, to as int), s[slot(len, from as int)]),
        StackOp::PushValue(idx) => s.push(s[slot(len, idx as int)]),
        StackOp::PushNil => s.push(LuaValue::Nil),
        StackOp::PushBoolean(b) => s.push(LuaValue::Boolean(b)),
        StackOp::PushNumber(bits) => s.push(LuaValue::Number(bits as int)),
        StackOp::PushString(bytes) => s.push(LuaValue::String(bytes@)),
        StackOp::PushCFunction(f) => s.push(LuaValue::Function(f as int)),
        StackOp::PushLString(bytes) => s.push(LuaValue::String(bytes@)),
    }
}

/// Whether every operation of `ops`, run in order from `s`, is accepted.
pub open spec fn plan_allowed(s: Seq<LuaValue>, ops: Seq<StackOp>) -> bool
    decreases ops.len(),
{
    ops.len() == 0 || (op_allowed(s, ops[0]) && plan_allowed(apply_op(s, ops[0]), ops.drop_first()))
}

/// The stack after running the operations of `ops` in order from `s`.
pub open spec fn apply_plan(s: Seq<LuaValue>, ops: Seq<StackOp>) -> Seq<LuaValue>
    decreases ops.len(),
{
    if ops.len() == 0 {
        s
    } else {
        apply_plan(apply_op(s, ops[0]), ops.drop_first())
    }
}

/// Running a plan of two operations is running the first, then the second.
pub proof fn lemma_plan_of_two(s: Seq<LuaValue>, a: StackOp, b: StackOp)
    ensures
        plan_allowed(s, seq![a, b]) == (op_allowed(s, a) && op_allowed(apply_op(s, a), b)),
        apply_plan(s, seq![a, b]) == apply_op(apply_op(s, a), b),
{
    let ops = seq![a, b];
    assert(ops.drop_first() =~= seq![b]);
    assert(seq![b].drop_first() =~= Seq::<StackOp>::empty());
    reveal_with_fuel(plan_allowed, 3);
    reveal_with_fuel(apply_plan, 3);
}

} // verus!
