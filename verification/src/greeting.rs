//! The greeting command.

use vstd::prelude::*;
use vstd::string::StringExecFns;

verus! {

/// The greeting for a name: a fixed opening, the name as given, a fixed close.
pub open spec fn greeting_text(name: Seq<char>) -> Seq<char> {
    "Hello, "@ + name + "! You've been greeted from Rust!"@
}

/// Greets `name`.
///
/// Every name is accepted and echoed unchanged, the empty one too; there is
/// no failure.
pub fn greet(name: &str) -> (greeting: String)
    ensures
        greeting@ == greeting_text(name@),
{
    let mut greeting = String::from_str("Hello, ");
    greeting.append(name);
    greeting.append("! You've been greeted from Rust!");
    greeting
}

} // verus!
