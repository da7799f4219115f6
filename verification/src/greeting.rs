//! The text of a greeting.

use vstd::prelude::*;

verus! {

/// The name that is greeted where the caller names nobody: `World`.
pub open spec fn default_greeted() -> Seq<char> {
    seq!['W', 'o', 'r', 'l', 'd']
}

/// The name that a query greets: the one that the caller gives, or the
/// default where the caller gives none.
pub open spec fn greeted(named: Option<Seq<char>>) -> Seq<char> {
    match named {
        Some(name) => name,
        None => default_greeted(),
    }
}

/// The characters that stand between the greeter and the greeted.
pub open spec fn separator() -> Seq<char> {
    seq![',', ' ']
}

/// The characters that close a greeting.
pub open spec fn terminator() -> Seq<char> {
    seq!['!']
}

/// The greeting that `greeter` sends to `greeted`: the two names with the
/// separator between them and the terminator behind.
pub open spec fn greeting(greeter: Seq<char>, greeted: Seq<char>) -> Seq<char> {
    greeter + separator() + greeted + terminator()
}

/// The name that a query greets, as a string.
pub fn greeted_or_default(named: Option<String>) -> (name: String)
    ensures
        name@ == greeted(named.deep_view()),
{
    match named {
        Some(name) => name,
        None => {
            proof {
                reveal_strlit("World");
            }
            let name = String::from_str("World");
            assert(name@ =~= default_greeted());
            name
        },
    }
}

/// Builds the greeting that `greeter` sends to `greeted`.
pub fn format_greeting(greeter: &str, greeted: &str) -> (text: String)
    ensures
        text@ == greeting(greeter@, greeted@),
{
    proof {
        reveal_strlit(", ");
        reveal_strlit("!");
    }
    assert(", "@ =~= separator());
    assert("!"@ =~= terminator());
    let mut text = String::from_str(greeter);
    text.append(", ");
    text.append(greeted);
    text.append("!");
    text
}

/// A greeting is the greeter, a comma, a space, the greeted and an
/// exclamation mark, in that order and with nothing else in it.
pub proof fn lemma_greeting_shape(greeter: Seq<char>, greeted: Seq<char>)
    ensures
        greeting(greeter, greeted).len() == greeter.len() + greeted.len() + 3,
        greeting(greeter, greeted).subrange(0, greeter.len() as int) == greeter,
        greeting(greeter, greeted)[greeter.len() as int] == ',',
        greeting(greeter, greeted)[greeter.len() as int + 1] == ' ',
        greeting(greeter, greeted).subrange(
            greeter.len() as int + 2,
            greeter.len() as int + 2 + greeted.len() as int,
        ) == greeted,
        greeting(greeter, greeted)[greeter.len() as int + 2 + greeted.len() as int] == '!',
{
    let text = greeting(greeter, greeted);
    let start = greeter.len() as int + 2;
    assert(text.subrange(0, greeter.len() as int) =~= greeter);
    assert(text.subrange(start, start + greeted.len() as int) =~= greeted);
}

} // verus!
