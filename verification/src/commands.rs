//! The host commands that the front-end may invoke by name.

use vstd::prelude::*;

verus! {

/// A host-side operation published to the front-end.
#[derive(Clone, Copy, Debug, PartialEq, Eq, Structural)]
pub enum Command {
    Read,
    Write,
}

/// The commands of the shell, in registration order.
pub open spec fn registered() -> Seq<Command> {
    seq![Command::Read, Command::Write]
}

/// The command that a name stands for, if any.
pub open spec fn resolves(name: Seq<char>) -> Option<Command> {
    if name == "read"@ {
        Some(Command::Read)
    } else if name == "write"@ {
        Some(Command::Write)
    } else {
        None
    }
}

/// The command among `commands` that a name stands for, if it is there.
pub open spec fn resolves_among(commands: Seq<Command>, name: Seq<char>) -> Option<Command> {
    match resolves(name) {
        Some(command) => if commands.contains(command) {
            Some(command)
        } else {
            None
        },
        None => None,
    }
}

impl Command {
    /// The name under which the front-end invokes the command.
    pub open spec fn spec_name(self) -> Seq<char> {
        match self {
            Command::Read => "read"@,
            Command::Write => "write"@,
        }
    }

    /// The name under which the front-end invokes the command.
    pub fn name(self) -> (name: &'static str)
        ensures
            name@ == self.spec_name(),
    {
        match self {
            Command::Read => "read",
            Command::Write => "write",
        }
    }
}

/// The two commands to register, `read` before `write`.
pub fn registry() -> (commands: Vec<Command>)
    ensures
        commands@ == registered(),
{
    let mut commands: Vec<Command> = Vec::new();
    commands.push(Command::Read);
    commands.push(Command::Write);
    assert(commands@ =~= registered());
    commands
}

/// Finds the command of the shell that `name` stands for.
pub fn lookup(name: &str) -> (found: Option<Command>)
    ensures
        found == resolves(name@),
{
    let owned = name.to_owned();
    if owned == Command::Read.name().to_owned() {
        Some(Command::Read)
    } else if owned == Command::Write.name().to_owned() {
        Some(Command::Write)
    } else {
        None
    }
}

/// Finds the command that `name` stands for among those registered so far.
pub fn lookup_among(commands: &Vec<Command>, name: &str) -> (found: Option<Command>)
    ensures
        found == resolves_among(commands@, name@),
{
    match lookup(name) {
        Some(command) => {
            let mut i: usize = 0;
            while i < commands.len()
                invariant
                    i <= commands.len(),
                    resolves(name@) == Some(command),
                    forall|j: int| 0 <= j < i ==> commands@[j] != command,
                decreases commands.len() - i,
            {
                if commands[i] == command {
                    assert(commands@[i as int] == command);
                    return Some(command);
                }
                i += 1;
            }
            assert(!commands@.contains(command));
            None
        },
        None => None,
    }
}

/// The two names differ.
pub proof fn lemma_names_differ()
    ensures
        "read"@ != "write"@,
{
    reveal_strlit("read");
    reveal_strlit("write");
    assert("read"@.len() == 4);
    assert("write"@.len() == 5);
}

/// No two registered commands share a name.
pub proof fn lemma_names_unique(i: int, j: int)
    requires
        0 <= i < registered().len(),
        0 <= j < registered().len(),
        i != j,
    ensures
        registered()[i].spec_name() != registered()[j].spec_name(),
{
    lemma_names_differ();
}

/// Every command resolves from its own name, and both are registered.
pub proof fn lemma_own_name_resolves(command: Command)
    ensures
        resolves(command.spec_name()) == Some(command),
        registered().contains(command),
        resolves_among(registered(), command.spec_name()) == Some(command),
{
    lemma_names_differ();
    assert(registered()[0] == Command::Read);
    assert(registered()[1] == Command::Write);
}

} // verus!
