//! The command surface offered to the front end.
use vstd::prelude::*;

verus! {

/// The greeting for `name`: the name placed between a fixed prefix and a
/// fixed suffix, with nothing escaped.
pub open spec fn greeting(name: Seq<char>) -> Seq<char> {
    "Hello, "@ + name + "! You've been greeted from Rust!"@
}

/// Formats the greeting for `name`, character for character.
pub fn greet(name: &str) -> (r: String)
    ensures
        r@ == greeting(name@),
{
    let prefix: String = "Hello, ".to_owned();
    let with_name = prefix.concat(name);
    with_name.concat("! You've been greeted from Rust!")
}

/// A command that the front end can invoke.
#[derive(Clone, Copy, Debug, PartialEq, Eq, Structural)]
pub enum Command {
    Greet,
}

pub open spec fn command_name(c: Command) -> Seq<char> {
    match c {
        Command::Greet => "greet"@,
    }
}

impl Command {
    /// The name under which the front end invokes the command.
    pub fn name(&self) -> (r: &'static str)
        ensures
            r@ == command_name(*self),
    {
        match self {
            Command::Greet => "greet",
        }
    }
}

/// The commands that the application exposes: the greeting alone.
pub fn commands() -> (r: Vec<Command>)
    ensures
        r@ == seq![Command::Greet],
{
    let mut r: Vec<Command> = Vec::new();
    r.push(Command::Greet);
    assert(r@ =~= seq![Command::Greet]);
    r
}

} // verus!
