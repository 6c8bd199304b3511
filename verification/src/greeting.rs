//! The greeting command: formats a caller-supplied name into a fixed
//! greeting. Pure, total, and free of side effects.

use vstd::prelude::*;

verus! {

use vstd::string::StringExecFns;

/// The greeting built for a name: the name stands verbatim between a fixed
/// salutation and a fixed sign-off.
pub open spec fn greeting_of(name: Seq<char>) -> Seq<char> {
    "Hello, "@ + name + "! You've been greeted from Rust!"@
}

/// Formats the greeting for `name`. Accepts any name, including the empty
/// string; there is no failure condition and no side effect.
pub fn greet(name: &str) -> (greeting: String)
    ensures
        greeting@ == greeting_of(name@),
{
    let mut greeting = String::from_str("Hello, ");
    greeting.append(name);
    greeting.append("! You've been greeted from Rust!");
    proof {
        assert(greeting@ =~= greeting_of(name@));
    }
    greeting
}

/// Every greeting embeds the name it was asked for verbatim, and no greeting
/// is empty: the name occupies exactly the characters after the salutation.
pub proof fn lemma_greeting_embeds_name(name: Seq<char>)
    ensures
        greeting_of(name).len() > 0,
        greeting_of(name).subrange(7, 7 + name.len() as int) == name,
{
    reveal_strlit("Hello, ");
    reveal_strlit("! You've been greeted from Rust!");
    assert(greeting_of(name).subrange(7, 7 + name.len() as int) =~= name);
}

} // verus!
