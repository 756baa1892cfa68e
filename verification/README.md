# lunar_lua

Safe bindings to the Lua 5.4 C API, with the decisions the bindings take
stated and proved in Verus.

- `src/` is the verified library. `stack.rs` models the Lua value stack and the
  primitive stack operations as the Lua reference manual describes them;
  `lua_core.rs` holds the operations that realize `pop`, `remove`, `insert`,
  `replace` and `push`, with the laws that they do what their documentation
  promises; `error.rs` and `wrapper.rs` map status and type codes; `state.rs`
  and `lua_aux.rs` prepare chunk loads; `lua_lib.rs` names the standard
  libraries; `lib.rs` holds the connection handles.
- `app/` makes the calls into the C library, as the library decides them.
- `tests/` runs the library on concrete values, with a small simulator of the
  stack for the stack operations.
