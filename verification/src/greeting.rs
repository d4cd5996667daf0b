//! The one remote-callable command of the shell: a pure greeting formatter.

use vstd::prelude::*;
use vstd::string::StringExecFns;

verus! {

/// The greeting built for `name`: a fixed prefix, the name verbatim, a fixed
/// suffix — no truncation and no escaping.
pub open spec fn spec_greeting(name: Seq<char>) -> Seq<char> {
    "Hello, "@ + name + "! You've been greeted from Rust!"@
}

/// Formats the greeting returned to the front-end for `name`.
///
/// Pure and total: any input produces a result, and the result is a function
/// of `name` alone.
pub fn greet(name: &str) -> (r: String)
    ensures
        r@ == spec_greeting(name@),
{
    let mut r = String::from_str("Hello, ");
    r.append(name);
    r.append("! You've been greeted from Rust!");
    r
}

/// The greeting embeds `name` verbatim: it is exactly the prefix, then the
/// name, then the suffix, so its length is the name's plus the fixed texts'.
pub proof fn lemma_greeting_embeds_name(name: Seq<char>)
    ensures
        spec_greeting(name).len() == "Hello, "@.len() + name.len()
            + "! You've been greeted from Rust!"@.len(),
        spec_greeting(name).subrange(0, "Hello, "@.len() as int) == "Hello, "@,
        spec_greeting(name).subrange(
            "Hello, "@.len() as int,
            ("Hello, "@.len() + name.len()) as int,
        ) == name,
        spec_greeting(name).subrange(
            ("Hello, "@.len() + name.len()) as int,
            spec_greeting(name).len() as int,
        ) == "! You've been greeted from Rust!"@,
{
    let p = "Hello, "@;
    let s = "! You've been greeted from Rust!"@;
    let g = spec_greeting(name);
    assert(g.subrange(0, p.len() as int) =~= p);
    assert(g.subrange(p.len() as int, (p.len() + name.len()) as int) =~= name);
    assert(g.subrange((p.len() + name.len()) as int, g.len() as int) =~= s);
}

/// Two results of the greeting for the same name are the same string: the
/// command is deterministic, so repeated calls agree.
pub proof fn lemma_greeting_deterministic(name: Seq<char>, r1: Seq<char>, r2: Seq<char>)
    requires
        r1 == spec_greeting(name),
        r2 == spec_greeting(name),
    ensures
        r1 == r2,
{
}

} // verus!
