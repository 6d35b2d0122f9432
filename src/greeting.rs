use vstd::prelude::*;
use vstd::string::StringExecFns;

verus! {

/// The text that `greet` hands back for `name`: the name, verbatim, between a
/// fixed salutation and a fixed welcome line.
pub open spec fn greeting(name: Seq<char>) -> Seq<char> {
    "Hello, "@ + name + "! Welcome to Iso Games Desktop."@
}

/// The one command that the web front-end may invoke: greets `name`.
pub fn greet(name: &str) -> (r: String)
    ensures
        r@ == greeting(name@),
{
    let head = String::from_str("Hello, ");
    let with_name = head.concat(name);
    with_name.concat("! Welcome to Iso Games Desktop.")
}

/// Greeting is a pure function of the name: two calls of `greet` on the same
/// name give the same text, and since `greet` only reads its argument,
/// nothing else is changed by either call.
pub proof fn greet_is_deterministic(name: Seq<char>, first: Seq<char>, second: Seq<char>)
    requires
        first == greeting(name),
        second == greeting(name),
    ensures
        first == second,
{
}

} // verus!
