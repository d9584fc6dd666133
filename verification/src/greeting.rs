use vstd::prelude::*;
use vstd::string::*;

verus! {

/// The text that a greeting for `name` consists of.
pub open spec fn greeting_text(name: Seq<char>) -> Seq<char> {
    "Hello, "@ + name + "! You've been greeted from Rust!"@
}

/// Builds the greeting that the backend sends back for `name`.
pub fn greet(name: &str) -> (greeting: String)
    ensures
        greeting@ == greeting_text(name@),
{
    let mut greeting = String::from_str("Hello, ");
    greeting.append(name);
    greeting.append("! You've been greeted from Rust!");
    greeting
}

/// The commands that the backend offers to the web page.
pub trait Commands {
    /// Greets `name`.
    fn hello(name: String) -> String;
}

/// The backend's implementation of the commands.
pub struct CommandsImpl;

impl Commands for CommandsImpl {
    fn hello(name: String) -> (greeting: String)
        ensures
            greeting@ == greeting_text(name@),
    {
        greet(name.as_str())
    }
}

/// A greeting holds the whole name, unchanged, between `Hello, ` and
/// `! You've been greeted from Rust!`: it is 39 characters longer than the
/// name, and the name stands from position 7 on.
pub proof fn lemma_greeting_keeps_name(name: Seq<char>)
    ensures
        greeting_text(name).len() == name.len() + 39,
        greeting_text(name).subrange(0, 7) == "Hello, "@,
        greeting_text(name).subrange(7, 7 + name.len() as int) == name,
        greeting_text(name).subrange(7 + name.len() as int, name.len() as int + 39)
            == "! You've been greeted from Rust!"@,
{
    reveal_strlit("Hello, ");
    reveal_strlit("! You've been greeted from Rust!");
    let g = greeting_text(name);
    assert(g.subrange(0, 7) =~= "Hello, "@);
    assert(g.subrange(7, 7 + name.len() as int) =~= name);
    assert(g.subrange(7 + name.len() as int, name.len() as int + 39) =~= "! You've been greeted from Rust!"@);
}

} // verus!
