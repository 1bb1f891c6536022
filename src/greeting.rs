//! The greeting command: a name embedded verbatim in a fixed template.

use vstd::prelude::*;

verus! {

/// The template's text before the name.
pub const GREETING_PREFIX: &'static str = "Hello, ";

/// The template's text after the name.
pub const GREETING_SUFFIX: &'static str = "! You've been greeted from Rust!";

/// The greeting for `name`: the name between the template's two parts.
pub open spec fn greeting(name: Seq<char>) -> Seq<char> {
    GREETING_PREFIX@ + name + GREETING_SUFFIX@
}

/// Greets `name`; any string is accepted and the call cannot fail.
pub fn greet(name: &str) -> (r: String)
    ensures
        r@ == greeting(name@),
{
    let mut out = String::from_str(GREETING_PREFIX);
    out.append(name);
    out.append(GREETING_SUFFIX);
    out
}

/// The name stands verbatim in its greeting, right after the prefix, and
/// the greeting is exactly the template's length plus the name's.
pub proof fn greeting_embeds_name(name: Seq<char>)
    ensures
        GREETING_PREFIX@.len() == 7,
        greeting(name).len() == GREETING_PREFIX@.len() + name.len() + GREETING_SUFFIX@.len(),
        greeting(name).subrange(7, 7 + name.len() as int) == name,
{
    reveal_strlit("Hello, ");
    assert(greeting(name).subrange(7, 7 + name.len() as int) =~= name);
}

/// Greeting is deterministic: two calls on the same name give the same text.
pub proof fn greet_is_deterministic(name: Seq<char>, first: Seq<char>, second: Seq<char>)
    requires
        first == greeting(name),
        second == greeting(name),
    ensures
        first == second,
{
}

} // verus!
