use vstd::prelude::*;
use vstd::string::StringExecFns;

verus! {

/// The greeting for `message`: the word "Hello", a space, then the message.
pub open spec fn greeting_text(message: Seq<char>) -> Seq<char> {
    "Hello "@ + message
}

/// Whether `needle` occurs in `hay` as a contiguous run of characters.
pub open spec fn contains_run(hay: Seq<char>, needle: Seq<char>) -> bool {
    exists|i: int|
        0 <= i && i + needle.len() <= hay.len() && #[trigger] hay.subrange(i, i + needle.len())
            == needle
}

/// Builds the greeting for the message the front end sent.
pub fn my_custom_command(invoke_message: String) -> (r: String)
    ensures
        r@ == greeting_text(invoke_message@),
{
    let greeting = String::from_str("Hello ");
    greeting.concat(invoke_message.as_str())
}

/// The greeting holds the message it was built from.
pub proof fn greeting_contains_message(message: Seq<char>)
    ensures
        contains_run(greeting_text(message), message),
{
    let g = greeting_text(message);
    let k = "Hello "@.len() as int;
    assert(g.subrange(k, k + message.len()) =~= message);
}

/// The greeting depends on the message alone: equal messages give equal greetings.
pub proof fn greeting_is_deterministic(a: Seq<char>, b: Seq<char>)
    requires
        a == b,
    ensures
        greeting_text(a) == greeting_text(b),
{
}

} // verus!
