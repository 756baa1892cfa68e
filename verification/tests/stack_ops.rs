use lunar_lua::lua_core::{
    copy, from_c_bool, insert, pop, push, push_l_string, push_returns_copy, push_string, remove, replace, rotate,
    LuaStackValue,
};
use lunar_lua::stack::StackOp;
use lunar_lua::state::State;

/// A value on the simulated stack.
#[derive(Debug, Clone, PartialEq)]
enum V {
    Nil,
    Bool(bool),
    Num(u64),
    Str(Vec<u8>),
    Func(usize),
    Tag(i32),
}

fn slot(len: usize, idx: i32) -> usize {
    if idx > 0 {
        (idx - 1) as usize
    } else {
        (len as i32 + idx) as usize
    }
}

/// Runs one operation on a stack, as the Lua reference manual describes it.
fn run(stack: &mut Vec<V>, op: &StackOp) {
    let len = stack.len();
    match op {
        StackOp::SetTop(idx) => {
            let n = if *idx >= 0 { *idx as usize } else { (len as i32 + idx + 1) as usize };
            stack.resize(n, V::Nil);
        }
        StackOp::Rotate(idx, n) => {
            let i = slot(len, *idx);
            let seg = &mut stack[i..];
            if *n >= 0 {
                seg.rotate_right(*n as usize);
            } else {
                seg.rotate_left((-*n) as usize);
            }
        }
        StackOp::Copy(from, to) => {
            let v = stack[slot(len, *from)].clone();
            stack[slot(len, *to)] = v;
        }
        StackOp::PushValue(idx) => {
            let v = stack[slot(len, *idx)].clone();
            stack.push(v);
        }
        StackOp::PushNil => stack.push(V::Nil),
        StackOp::PushBoolean(b) => stack.push(V::Bool(*b)),
        StackOp::PushNumber(bits) => stack.push(V::Num(*bits)),
        StackOp::PushString(bytes) => stack.push(V::Str(bytes.clone())),
        StackOp::PushCFunction(f) => stack.push(V::Func(*f)),
        StackOp::PushLString(bytes) => stack.push(V::Str(bytes.clone())),
    }
}

fn run_all(stack: &mut Vec<V>, ops: &[StackOp]) {
    for op in ops {
        run(stack, op);
    }
}

fn tags(n: i32) -> Vec<V> {
    (1..=n).map(V::Tag).collect()
}

#[test]
fn pop_sets_the_top_relative_to_the_top() {
    assert_eq!(pop(0), StackOp::SetTop(-1));
    assert_eq!(pop(1), StackOp::SetTop(-2));
    assert_eq!(pop(3), StackOp::SetTop(-4));
}

#[test]
fn pop_leaves_the_bottom_values() {
    for n in 0..=5 {
        let mut s = tags(5);
        run(&mut s, &pop(n));
        assert_eq!(s, tags(5 - n));
    }
}

#[test]
fn state_pop_sets_an_absolute_top() {
    let state = State::new(1);
    assert_eq!(state.pop(2, 5), StackOp::SetTop(3));
    assert_eq!(state.pop(5, 5), StackOp::SetTop(0));
    let mut s = tags(5);
    run(&mut s, &state.pop(2, 5));
    assert_eq!(s, tags(3));
}

#[test]
fn remove_is_rotate_then_pop() {
    assert_eq!(remove(2), vec![StackOp::Rotate(2, -1), StackOp::SetTop(-2)]);
}

#[test]
fn remove_shifts_down() {
    let mut s = tags(4);
    run_all(&mut s, &remove(2));
    assert_eq!(s, vec![V::Tag(1), V::Tag(3), V::Tag(4)]);
    let mut s = tags(4);
    run_all(&mut s, &remove(-1));
    assert_eq!(s, tags(3));
    let mut s = tags(4);
    run_all(&mut s, &remove(-4));
    assert_eq!(s, vec![V::Tag(2), V::Tag(3), V::Tag(4)]);
}

#[test]
fn insert_moves_the_top_down() {
    assert_eq!(insert(2), StackOp::Rotate(2, 1));
    let mut s = tags(4);
    run(&mut s, &insert(2));
    assert_eq!(s, vec![V::Tag(1), V::Tag(4), V::Tag(2), V::Tag(3)]);
    let mut s = tags(4);
    run(&mut s, &insert(-1));
    assert_eq!(s, tags(4));
}

#[test]
fn replace_overwrites_then_pops() {
    assert_eq!(replace(3), vec![StackOp::Copy(-1, 3), StackOp::SetTop(-2)]);
    let mut s = tags(4);
    run_all(&mut s, &replace(2));
    assert_eq!(s, vec![V::Tag(1), V::Tag(4), V::Tag(3)]);
    let mut s = tags(4);
    run_all(&mut s, &replace(-1));
    assert_eq!(s, tags(3));
}

#[test]
fn insert_then_remove_pops_the_top() {
    for idx in [1, 2, 3, 4, -1, -2, -4] {
        let mut s = tags(4);
        run(&mut s, &insert(idx));
        run_all(&mut s, &remove(idx));
        assert_eq!(s, tags(3));
    }
}

#[test]
fn push_chooses_the_operation() {
    assert_eq!(push(LuaStackValue::Nil), StackOp::PushNil);
    assert_eq!(push(LuaStackValue::from(())), StackOp::PushNil);
    assert_eq!(push(LuaStackValue::from(true)), StackOp::PushBoolean(true));
    assert_eq!(push(LuaStackValue::Bool(false)), StackOp::PushBoolean(false));
    assert_eq!(push(LuaStackValue::Number(13f64.to_bits())), StackOp::PushNumber(13f64.to_bits()));
    assert_eq!(push(LuaStackValue::from("hello")), StackOp::PushString(b"hello".to_vec()));
    assert_eq!(push(LuaStackValue::CFunction(0x4000)), StackOp::PushCFunction(0x4000));
}

#[test]
fn push_then_pop_restores_the_stack() {
    let values = [
        LuaStackValue::Nil,
        LuaStackValue::Bool(true),
        LuaStackValue::Number(2.5f64.to_bits()),
        LuaStackValue::String("x"),
        LuaStackValue::CFunction(8),
    ];
    for v in values {
        let mut s = tags(3);
        run(&mut s, &push(v));
        assert_eq!(s.len(), 4);
        run(&mut s, &pop(1));
        assert_eq!(s, tags(3));
    }
    let mut s = tags(3);
    run(&mut s, &StackOp::PushValue(-3));
    assert_eq!(s.last(), Some(&V::Tag(1)));
    run(&mut s, &pop(1));
    assert_eq!(s, tags(3));
}

#[test]
fn set_top_fills_with_nil() {
    let mut s = tags(2);
    run(&mut s, &StackOp::SetTop(4));
    assert_eq!(s, vec![V::Tag(1), V::Tag(2), V::Nil, V::Nil]);
    run(&mut s, &StackOp::SetTop(0));
    assert!(s.is_empty());
}

#[test]
fn c_booleans() {
    assert!(!from_c_bool(0));
    assert!(from_c_bool(1));
    assert!(from_c_bool(-7));
}

#[test]
fn state_pops_compose() {
    let state = State::new(1);
    for a in 0..=5u32 {
        for b in 0..=(5 - a) {
            let mut s1 = tags(5);
            run(&mut s1, &state.pop(a, 5));
            run(&mut s1, &state.pop(b, 5 - a));
            let mut s2 = tags(5);
            run(&mut s2, &state.pop(a + b, 5));
            assert_eq!(s1, s2);
        }
    }
    let mut s = tags(4);
    run(&mut s, &state.pop(0, 4));
    assert_eq!(s, tags(4));
}

#[test]
fn only_a_string_push_returns_a_copy() {
    assert!(push_returns_copy(&LuaStackValue::String("a")));
    assert!(!push_returns_copy(&LuaStackValue::Nil));
    assert!(!push_returns_copy(&LuaStackValue::Bool(true)));
    assert!(!push_returns_copy(&LuaStackValue::Number(0)));
    assert!(!push_returns_copy(&LuaStackValue::CFunction(1)));
}

#[test]
fn push_l_string_keeps_embedded_zeros() {
    assert_eq!(push_l_string("a\0b\0c", 4), StackOp::PushLString(b"a\0b\0".to_vec()));
    assert_eq!(push_l_string("hello", 0), StackOp::PushLString(Vec::new()));
    let mut s = tags(1);
    run(&mut s, &push_l_string("x\0y", 3));
    assert_eq!(s.last(), Some(&V::Str(b"x\0y".to_vec())));
}

#[test]
fn push_string_is_the_string_push() {
    assert_eq!(push_string("key"), StackOp::PushString(b"key".to_vec()));
}

#[test]
fn rotate_then_rotate_back() {
    assert_eq!(rotate(2, 3), StackOp::Rotate(2, 3));
    for idx in [1, 2, 4, -1, -3] {
        for n in -2..=2 {
            let mut s = tags(5);
            let i = slot(5, idx);
            if (n as i32).unsigned_abs() as usize > 5 - i {
                continue;
            }
            run(&mut s, &rotate(idx, n));
            run(&mut s, &rotate(idx, -n));
            assert_eq!(s, tags(5));
        }
    }
    let mut s = tags(4);
    run(&mut s, &rotate(2, 1));
    assert_eq!(s, vec![V::Tag(1), V::Tag(4), V::Tag(2), V::Tag(3)]);
}

#[test]
fn copy_leaves_other_positions() {
    assert_eq!(copy(-1, 2), StackOp::Copy(-1, 2));
    let mut s = tags(4);
    run(&mut s, &copy(1, -1));
    assert_eq!(s, vec![V::Tag(1), V::Tag(2), V::Tag(3), V::Tag(1)]);
}
