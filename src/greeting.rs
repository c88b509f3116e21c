use vstd::prelude::*;
use vstd::string::StringExecFns;

verus! {

/// The greeting handed to a host for a given name: `Hello, <name> from Rust!`.
pub open spec fn greeting(name: Seq<char>) -> Seq<char> {
    "Hello, "@ + name + " from Rust!"@
}

/// Builds the greeting for `name`.
pub fn hello(name: &str) -> (r: String)
    ensures
        r@ == greeting(name@),
{
    let mut s = String::from_str("Hello, ");
    s.append(name);
    s.append(" from Rust!");
    s
}

} // verus!
