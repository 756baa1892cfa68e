use vstd::prelude::*;

use crate::state::{copy_bytes, LoadRequest};
use vstd::string::StringSliceAdditionalSpecFns;

verus! {

/// The load of `buff` as a Lua chunk named `name` that `luaL_loadbufferx` makes
/// with mode equal to NULL. The chunk is handed over by its length, so it may
/// hold any bytes; the name may not hold a zero byte.
pub fn aux_load_buffer(buff: &str, name: &str) -> (request: LoadRequest)
    requires
        !name.spec_bytes().contains(0u8),
    ensures
        request.chunk@ == buff.spec_bytes(),
        request.name@ == name@,
        request.mode is None,
{
    LoadRequest { chunk: copy_bytes(buff.as_bytes()), name: name.to_owned(), mode: None }
}

} // verus!
