//! The one RPC-style command: a fixed greeting sentence interpolating a name.

use vstd::prelude::*;

verus! {

/// The greeting built around `name`.
pub open spec fn greeting_of(name: Seq<char>) -> Seq<char> {
    "Hello, "@ + name + "! You've been greeted from Rust!"@
}

/// Returns the fixed greeting sentence with `name` interpolated. Total for
/// any input string; no validation, no side effects.
pub fn greet(name: &str) -> (r: String)
    ensures
        r@ == greeting_of(name@),
{
    let mut s: String = "Hello, ".to_owned();
    s.append(name);
    s.append("! You've been greeted from Rust!");
    s
}

} // verus!
