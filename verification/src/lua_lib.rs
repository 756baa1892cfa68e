use vstd::prelude::*;

verus! {

/// A standard Lua library that `luaL_requiref` can open, as a global.
#[derive(Debug, Clone, Copy, PartialEq, Eq, Structural)]
pub enum StandardLib {
    Base,
    Coroutine,
    Debug,
    Io,
    Math,
    Os,
    Package,
    String,
    Table,
    Utf8,
}

impl StandardLib {
    /// The module name the library is required under.
    pub open spec fn spec_module_name(self) -> Seq<char> {
        match self {
            StandardLib::Base => seq!['b', 'a', 's', 'e'],
            StandardLib::Coroutine => seq!['c', 'o', 'r', 'o', 'u', 't', 'i', 'n', 'e'],
            StandardLib::Debug => seq!['d', 'e', 'b', 'u', 'g'],
            StandardLib::Io => seq!['i', 'o'],
            StandardLib::Math => seq!['m', 'a', 't', 'h'],
            StandardLib::Os => seq!['o', 's'],
            StandardLib::Package => seq!['p', 'a', 'c', 'k', 'a', 'g', 'e'],
            StandardLib::String => seq!['s', 't', 'r', 'i', 'n', 'g'],
            StandardLib::Table => seq!['t', 'a', 'b', 'l', 'e'],
            StandardLib::Utf8 => seq!['u', 't', 'f', '8'],
        }
    }

    /// The module name the library is required under.
    pub fn module_name(&self) -> (name: &'static str)
        ensures
            name@ == self.spec_module_name(),
    {
        proof {
            reveal_strlit("base");
            reveal_strlit("coroutine");
            reveal_strlit("debug");
            reveal_strlit("io");
            reveal_strlit("math");
            reveal_strlit("os");
            reveal_strlit("package");
            reveal_strlit("string");
            reveal_strlit("table");
            reveal_strlit("utf8");
        }
        match self {
            StandardLib::Base => "base",
            StandardLib::Coroutine => "coroutine",
            StandardLib::Debug => "debug",
            StandardLib::Io => "io",
            StandardLib::Math => "math",
            StandardLib::Os => "os",
            StandardLib::Package => "package",
            StandardLib::String => "string",
            StandardLib::Table => "table",
            StandardLib::Utf8 => "utf8",
        }
    }
}

} // verus!
