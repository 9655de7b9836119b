//! The two command handlers offered to the window.
use vstd::prelude::*;

verus! {

/// The text returned by the first handler: `Hello, <name>!`.
pub open spec fn greeting_text(name: Seq<char>) -> Seq<char> {
    "Hello, "@ + name + "!"@
}

/// The text returned by the second handler: `Hello1, <name>!`.
pub open spec fn greeting1_text(name: Seq<char>) -> Seq<char> {
    "Hello1, "@ + name + "!"@
}

/// Greets `name`, which is copied verbatim between the prefix and the `!`.
pub fn greet(name: &str) -> (r: String)
    ensures
        r@ == greeting_text(name@),
{
    let mut r = String::from_str("Hello, ");
    r.append(name);
    r.append("!");
    r
}

/// The second greeting handler; like `greet`, with the prefix `Hello1, `.
pub fn greet1(name: &str) -> (r: String)
    ensures
        r@ == greeting1_text(name@),
{
    let mut r = String::from_str("Hello1, ");
    r.append(name);
    r.append("!");
    r
}

} // verus!
