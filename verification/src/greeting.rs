//! The greeting: what it is, as a sequence of characters, and the command that
//! builds it.

use vstd::prelude::*;

verus! {

/// The greeting for `name`: the salutation, the name as it was given, and the
/// closing sentence.
pub open spec fn greeting(name: Seq<char>) -> Seq<char> {
    "Hello, "@ + name + "! You've been greeted from Rust!"@
}

/// Greets `name`.
///
/// Any text is accepted, the empty string too; nothing is trimmed, escaped or
/// checked, and the call cannot fail.
pub fn greet(name: &str) -> (text: String)
    ensures
        text@ == greeting(name@),
{
    let mut text = String::from_str("Hello, ");
    text.append(name);
    text.append("! You've been greeted from Rust!");
    text
}

/// The name stands in the greeting unchanged, character for character, right
/// after the seven characters of the salutation and right before the
/// thirty-two of the closing sentence; the greeting holds nothing else.
pub proof fn lemma_greeting_holds_name(name: Seq<char>)
    ensures
        greeting(name).len() == name.len() + 39,
        greeting(name).subrange(0, 7) == "Hello, "@,
        greeting(name).subrange(7, 7 + name.len() as int) == name,
        greeting(name).subrange(7 + name.len() as int, 39 + name.len() as int)
            == "! You've been greeted from Rust!"@,
{
    reveal_strlit("Hello, ");
    reveal_strlit("! You've been greeted from Rust!");
}

/// Greeting is repeatable: two calls of `greet` on the same name return the
/// same text, since each result is the one sequence that `greeting` gives.
pub proof fn lemma_greet_repeatable(name: Seq<char>, first: Seq<char>, second: Seq<char>)
    requires
        first == greeting(name),
        second == greeting(name),
    ensures
        first == second,
{
}

} // verus!
