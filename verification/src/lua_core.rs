use vstd::prelude::*;
use vstd::string::StringSliceAdditionalSpecFns;
use crate::stack::{
    apply_op, apply_plan, is_valid_index, lemma_plan_of_two, op_allowed, plan_allowed, slot, type_at,
    type_code, LuaValue, StackOp,
};
use crate::state::{copy_bytes, copy_prefix};

verus! {

/// The operation that pops `n` values: `lua_settop(L, -n - 1)`.
pub open spec fn pop_op(n: int) -> StackOp {
    StackOp::SetTop((-n - 1) as i32)
}

/// The operations that remove the value at `idx`: rotate it to the top, then pop it.
pub open spec fn remove_plan(idx: i32) -> Seq<StackOp> {
    seq![StackOp::Rotate(idx, -1i32), pop_op(1)]
}

/// The operation that moves the top value to `idx`.
pub open spec fn insert_op(idx: i32) -> StackOp {
    StackOp::Rotate(idx, 1i32)
}

/// The operations that move the top value over the value at `idx`: copy it there, then pop it.
pub open spec fn replace_plan(idx: i32) -> Seq<StackOp> {
    seq![StackOp::Copy(-1i32, idx), pop_op(1)]
}

/// Pops `n` elements from the stack.
pub fn pop(n: i32) -> (op: StackOp)
    requires
        n != i32::MIN,
    ensures
        op == pop_op(n as int),
{
    StackOp::SetTop(-n - 1)
}

/// Removes the element at the given valid index, shifting down the elements above this index to fill the gap.
pub fn remove(idx: i32) -> (ops: Vec<StackOp>)
    ensures
        ops@ == remove_plan(idx),
{
    let mut ops: Vec<StackOp> = Vec::new();
    ops.push(StackOp::Rotate(idx, -1i32));
    ops.push(pop(1));
    assert(ops@ =~= remove_plan(idx));
    ops
}

/// Moves the top element into the given valid index, shifting up the elements above this index to open space.
pub fn insert(idx: i32) -> (op: StackOp)
    ensures
        op == insert_op(idx),
{
    StackOp::Rotate(idx, 1i32)
}

/// Moves the top element into the given valid index without shifting any element
/// (therefore replacing the value at that given index), and then pops the top element.
pub fn replace(idx: i32) -> (ops: Vec<StackOp>)
    ensures
        ops@ == replace_plan(idx),
{
    let mut ops: Vec<StackOp> = Vec::new();
    ops.push(StackOp::Copy(-1i32, idx));
    ops.push(pop(1));
    assert(ops@ =~= replace_plan(idx));
    ops
}

/// A value to push onto the stack. A number is given by the bits of its float,
/// a C function by its address.
pub enum LuaStackValue<'a> {
    Number(u64),
    Bool(bool),
    String(&'a str),
    CFunction(usize),
    Nil,
}

/// The value the stack holds after `value` is pushed.
pub open spec fn pushed_value(value: LuaStackValue) -> LuaValue {
    match value {
        LuaStackValue::Number(bits) => LuaValue::Number(bits as int),
        LuaStackValue::Bool(b) => LuaValue::Boolean(b),
        LuaStackValue::String(s) => LuaValue::String(s.spec_bytes()),
        LuaStackValue::CFunction(f) => LuaValue::Function(f as int),
        LuaStackValue::Nil => LuaValue::Nil,
    }
}

/// Whether `value` can be pushed: a string must not hold a zero byte.
pub open spec fn can_push(value: LuaStackValue) -> bool {
    value matches LuaStackValue::String(s) ==> !s.spec_bytes().contains(0u8)
}

/// Whether `op` is the operation that pushes `value`.
pub open spec fn pushes(op: StackOp, value: LuaStackValue) -> bool {
    match value {
        LuaStackValue::Number(bits) => op == StackOp::PushNumber(bits),
        LuaStackValue::Bool(b) => op == StackOp::PushBoolean(b),
        LuaStackValue::String(s) => op matches StackOp::PushString(bytes) && bytes@ == s.spec_bytes(),
        LuaStackValue::CFunction(f) => op == StackOp::PushCFunction(f),
        LuaStackValue::Nil => op == StackOp::PushNil,
    }
}

impl<'a> From<bool> for LuaStackValue<'a> {
    fn from(value: bool) -> (v: Self)
        ensures
            v == LuaStackValue::Bool(value),
    {
        LuaStackValue::Bool(value)
    }
}

impl<'a> vstd::std_specs::convert::FromSpecImpl<bool> for LuaStackValue<'a> {
    open spec fn obeys_from_spec() -> bool {
        true
    }

    open spec fn from_spec(v: bool) -> Self {
        LuaStackValue::Bool(v)
    }
}

impl<'a> From<&'a str> for LuaStackValue<'a> {
    fn from(value: &'a str) -> (v: Self)
        ensures
            v == LuaStackValue::String(value),
    {
        LuaStackValue::String(value)
    }
}

impl<'a> vstd::std_specs::convert::FromSpecImpl<&'a str> for LuaStackValue<'a> {
    open spec fn obeys_from_spec() -> bool {
        true
    }

    open spec fn from_spec(v: &'a str) -> Self {
        LuaStackValue::String(v)
    }
}

impl<'a> From<()> for LuaStackValue<'a> {
    fn from(value: ()) -> (v: Self)
        ensures
            v == LuaStackValue::Nil,
    {
        LuaStackValue::Nil
    }
}

impl<'a> vstd::std_specs::convert::FromSpecImpl<()> for LuaStackValue<'a> {
    open spec fn obeys_from_spec() -> bool {
        true
    }

    open spec fn from_spec(v: ()) -> Self {
        LuaStackValue::Nil
    }
}

/// The operation that pushes `value` onto the stack.
pub fn push(value: LuaStackValue) -> (op: StackOp)
    requires
        can_push(value),
    ensures
        pushes(op, value),
{
    match value {
        LuaStackValue::Nil => StackOp::PushNil,
        LuaStackValue::Bool(b) => StackOp::PushBoolean(b),
        LuaStackValue::Number(bits) => StackOp::PushNumber(bits),
        LuaStackValue::String(s) => StackOp::PushString(copy_bytes(s.as_bytes())),
        LuaStackValue::CFunction(f) => StackOp::PushCFunction(f),
    }
}

/// Whether pushing `value` hands back Lua's internal copy of it: only a string's push does.
pub fn push_returns_copy(value: &LuaStackValue) -> (b: bool)
    ensures
        b == (*value is String),
{
    match value {
        LuaStackValue::String(_) => true,
        _ => false,
    }
}

/// Pushing a value puts it on top of the stack, where `lua_type` reports its type.
pub proof fn law_push(s: Seq<LuaValue>, value: LuaStackValue, op: StackOp)
    requires
        can_push(value),
        pushes(op, value),
    ensures
        is_push(op),
        op_allowed(s, op),
        apply_op(s, op) == s.push(pushed_value(value)),
        type_at(apply_op(s, op), -1) == type_code(pushed_value(value)),
{
}

/// Pushes the first `length` bytes of `s`, which may be any binary data,
/// including zeros: `lua_pushlstring(L, s, length)`.
pub fn push_l_string(s: &str, length: isize) -> (op: StackOp)
    requires
        0 <= length <= s.spec_bytes().len(),
    ensures
        op matches StackOp::PushLString(bytes) && bytes@ == s.spec_bytes().take(length as int),
{
    StackOp::PushLString(copy_prefix(s.as_bytes(), length as usize))
}

/// Pushes `s`: the operation is the one [push] chooses for a string.
pub fn push_string(s: &str) -> (op: StackOp)
    requires
        !s.spec_bytes().contains(0u8),
    ensures
        pushes(op, LuaStackValue::String(s)),
{
    push(LuaStackValue::String(s))
}

/// Rotates the stack elements between the valid index `idx` and the top `n`
/// positions in the direction of the top (toward the bottom for a negative `n`).
pub fn rotate(idx: i32, n: i32) -> (op: StackOp)
    ensures
        op == StackOp::Rotate(idx, n),
{
    StackOp::Rotate(idx, n)
}

/// Copies the element at index `from_idx` into the valid index `to_idx`.
pub fn copy(from_idx: i32, to_idx: i32) -> (op: StackOp)
    ensures
        op == StackOp::Copy(from_idx, to_idx),
{
    StackOp::Copy(from_idx, to_idx)
}

/// Reads a C boolean (`0` is false, anything else true), as `lua_toboolean`,
/// `lua_iscfunction` and `lua_checkstack` report it.
pub fn from_c_bool(value: i32) -> (b: bool)
    ensures
        b == (value != 0),
{
    match value {
        0 => false,
        _ => true,
    }
}

/// Popping `n` values, for `n` up to the stack size, leaves the `len - n` bottom values.
pub proof fn law_pop(s: Seq<LuaValue>, n: i32)
    requires
        0 <= n <= s.len(),
    ensures
        op_allowed(s, pop_op(n as int)),
        apply_op(s, pop_op(n as int)) == s.take(s.len() - n),
{
    assert(apply_op(s, pop_op(n as int)) =~= s.take(s.len() - n));
}

/// Removing the value at a valid index shifts the values above it down by one.
pub proof fn law_remove(s: Seq<LuaValue>, idx: i32)
    requires
        is_valid_index(s.len() as int, idx as int),
    ensures
        plan_allowed(s, remove_plan(idx)),
        apply_plan(s, remove_plan(idx)) == s.remove(slot(s.len() as int, idx as int)),
{
    let len = s.len() as int;
    let i = slot(len, idx as int);
    let m = len - i;
    lemma_plan_of_two(s, StackOp::Rotate(idx, -1i32), pop_op(1));
    let r = apply_op(s, StackOp::Rotate(idx, -1i32));
    assert forall|k: int| i <= k < len implies #[trigger] r[k] == if k < len - 1 {
        s[k + 1]
    } else {
        s[i]
    } by {
        if k < len - 1 {
            vstd::arithmetic::div_mod::lemma_small_mod((k - i + 1) as nat, m as nat);
        } else {
            vstd::arithmetic::div_mod::lemma_mod_self_0(m);
        }
    }
    assert(apply_op(r, pop_op(1)) =~= s.remove(i));
}

/// Inserting at a valid index moves the top value there and shifts the values from
/// that index up by one.
pub proof fn law_insert(s: Seq<LuaValue>, idx: i32)
    requires
        is_valid_index(s.len() as int, idx as int),
    ensures
        op_allowed(s, insert_op(idx)),
        apply_op(s, insert_op(idx)) == s.drop_last().insert(slot(s.len() as int, idx as int), s.last()),
{
    let len = s.len() as int;
    let i = slot(len, idx as int);
    let m = len - i;
    let r = apply_op(s, insert_op(idx));
    assert forall|k: int| i <= k < len implies #[trigger] r[k] == if k == i {
        s[len - 1]
    } else {
        s[k - 1]
    } by {
        if k == i {
            assert((-1int) % m == m - 1) by (nonlinear_arith)
                requires
                    m > 0,
            ;
        } else {
            vstd::arithmetic::div_mod::lemma_small_mod((k - i - 1) as nat, m as nat);
        }
    }
    assert(r =~= s.drop_last().insert(i, s.last()));
}

/// Replacing at a valid index overwrites that value with the top value, then pops the top.
pub proof fn law_replace(s: Seq<LuaValue>, idx: i32)
    requires
        is_valid_index(s.len() as int, idx as int),
    ensures
        plan_allowed(s, replace_plan(idx)),
        apply_plan(s, replace_plan(idx)) == s.update(slot(s.len() as int, idx as int), s.last()).drop_last(),
{
    lemma_plan_of_two(s, StackOp::Copy(-1i32, idx), pop_op(1));
    let r = apply_op(s, StackOp::Copy(-1i32, idx));
    assert(apply_op(r, pop_op(1)) =~= s.update(slot(s.len() as int, idx as int), s.last()).drop_last());
}

/// Removing at an index right after inserting there undoes the insertion, which
/// leaves the stack as popping the top value would.
pub proof fn law_insert_then_remove(s: Seq<LuaValue>, idx: i32)
    requires
        is_valid_index(s.len() as int, idx as int),
    ensures
        plan_allowed(s, seq![insert_op(idx)] + remove_plan(idx)),
        apply_plan(s, seq![insert_op(idx)] + remove_plan(idx)) == s.drop_last(),
{
    let i = slot(s.len() as int, idx as int);
    law_insert(s, idx);
    let t = apply_op(s, insert_op(idx));
    law_remove(t, idx);
    let ops = seq![insert_op(idx)] + remove_plan(idx);
    assert(ops.drop_first() =~= remove_plan(idx));
    assert(t.remove(i) =~= s.drop_last());
}

/// Whether `op` pushes a new value, or a copy of one on the stack.
pub open spec fn is_push(op: StackOp) -> bool {
    op is PushValue || op is PushNil || op is PushBoolean || op is PushNumber || op is PushString
        || op is PushCFunction || op is PushLString
}

/// Pushing a value and then popping one leaves the stack as it was.
pub proof fn law_push_then_pop(s: Seq<LuaValue>, op: StackOp)
    requires
        is_push(op),
        op_allowed(s, op),
    ensures
        apply_op(s, op).len() == s.len() + 1,
        op_allowed(apply_op(s, op), pop_op(1)),
        apply_op(apply_op(s, op), pop_op(1)) == s,
{
    assert(apply_op(apply_op(s, op), pop_op(1)) =~= s);
}

/// Pushing a copy of the value at a valid index puts a value of the same type on top.
pub proof fn law_push_value_type(s: Seq<LuaValue>, idx: i32)
    requires
        is_valid_index(s.len() as int, idx as int),
    ensures
        op_allowed(s, StackOp::PushValue(idx)),
        type_at(apply_op(s, StackOp::PushValue(idx)), -1) == type_at(s, idx as int),
{
}

/// `lua_type` only ever reports a code from `LUA_TNONE` (-1) to `LUA_TTHREAD` (8).
pub proof fn law_type_code_range(s: Seq<LuaValue>, idx: int)
    ensures
        -1 <= type_at(s, idx) <= 8,
{
}

/// Rotating by `n` and then by `-n` at the same valid index leaves the stack as it was.
pub proof fn law_rotate_inverse(s: Seq<LuaValue>, idx: i32, n: i32)
    requires
        op_allowed(s, StackOp::Rotate(idx, n)),
        n != i32::MIN,
    ensures
        op_allowed(apply_op(s, StackOp::Rotate(idx, n)), StackOp::Rotate(idx, (-n) as i32)),
        apply_op(apply_op(s, StackOp::Rotate(idx, n)), StackOp::Rotate(idx, (-n) as i32)) == s,
{
    let len = s.len() as int;
    let i = slot(len, idx as int);
    let m = len - i;
    let r = apply_op(s, StackOp::Rotate(idx, n));
    let t = apply_op(r, StackOp::Rotate(idx, (-n) as i32));
    assert forall|k: int| i <= k < len implies #[trigger] t[k] == s[k] by {
        let a = (k - i + n) % m;
        vstd::arithmetic::div_mod::lemma_fundamental_div_mod(k - i + n, m);
        let q = (k - i + n) / m;
        assert(a - n == m * (-q) + (k - i)) by (nonlinear_arith)
            requires
                k - i + n == m * q + a,
        ;
        vstd::arithmetic::div_mod::lemma_mod_multiples_vanish(-q, k - i, m);
        vstd::arithmetic::div_mod::lemma_small_mod((k - i) as nat, m as nat);
        vstd::arithmetic::div_mod::lemma_mod_bound(k - i + n, m);
        assert(r[i + a] == s[i + ((i + a) - i - n) % m]);
    }
    assert(t =~= s);
}

/// Copying writes the value at `from_idx` into the slot of `to_idx` and leaves
/// every other position, and the stack size, as they were.
pub proof fn law_copy(s: Seq<LuaValue>, from_idx: i32, to_idx: i32)
    requires
        op_allowed(s, StackOp::Copy(from_idx, to_idx)),
    ensures
        apply_op(s, StackOp::Copy(from_idx, to_idx)).len() == s.len(),
        apply_op(s, StackOp::Copy(from_idx, to_idx))[slot(s.len() as int, to_idx as int)]
            == s[slot(s.len() as int, from_idx as int)],
        forall|k: int|
            0 <= k < s.len() && k != slot(s.len() as int, to_idx as int) ==> #[trigger] apply_op(
                s,
                StackOp::Copy(from_idx, to_idx),
            )[k] == s[k],
{
}

/// Pushing the first `length` bytes of a string puts a string of those bytes,
/// zeros included, on top.
pub proof fn law_push_l_string(s: Seq<LuaValue>, bytes: Vec<u8>)
    ensures
        op_allowed(s, StackOp::PushLString(bytes)),
        apply_op(s, StackOp::PushLString(bytes)) == s.push(LuaValue::String(bytes@)),
        type_at(apply_op(s, StackOp::PushLString(bytes)), -1) == 4,
{
}

/// A boolean converted into a stack value is that boolean, for both truth
/// values, and pushing it pushes a boolean of the same value, whose type
/// `lua_type` reports as boolean.
pub proof fn law_push_converted_bool(s: Seq<LuaValue>, b: bool, op: StackOp)
    requires
        pushes(op, <LuaStackValue<'static> as vstd::std_specs::convert::FromSpec<bool>>::from_spec(b)),
    ensures
        <LuaStackValue<'static> as vstd::std_specs::convert::FromSpec<bool>>::from_spec(b)
            == LuaStackValue::Bool(b),
        op == StackOp::PushBoolean(b),
        apply_op(s, op) == s.push(LuaValue::Boolean(b)),
        type_at(apply_op(s, op), -1) == 1,
{
}

/// A string converted into a stack value is that string, and unit converted
/// into a stack value is nil.
pub proof fn law_converted_values(text: &str)
    ensures
        <LuaStackValue as vstd::std_specs::convert::FromSpec<&str>>::from_spec(text)
            == LuaStackValue::String(text),
        <LuaStackValue<'static> as vstd::std_specs::convert::FromSpec<()>>::from_spec(())
            == LuaStackValue::Nil,
{
}

} // verus!
