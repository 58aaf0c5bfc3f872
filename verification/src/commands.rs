//! The command names the manager recognises, and the result every command
//! handler reports. Interactive sessions use `Command` (or the richer
//! `RuntimeCommand`), one-shot invocations use `ArgCommand`.

use vstd::prelude::*;

use crate::text::str_eq;

verus! {

/// Outcome of one command: either it succeeded, or it failed with a
/// user-facing message and the session goes on.
#[derive(Debug, PartialEq, Eq)]
pub enum CommandResult {
    Success,
    Fail(String),
}

/// The interactive command set.
#[derive(Copy, Clone, Debug, PartialEq, Eq)]
pub enum Command {
    Add,
    Pick,
    Remove,
    Undo,
    Redo,
    Exit,
}

pub open spec fn spec_command_from_str(s: Seq<char>) -> Option<Command> {
    if s == "add"@ {
        Some(Command::Add)
    } else if s == "pick"@ {
        Some(Command::Pick)
    } else if s == "remove"@ {
        Some(Command::Remove)
    } else if s == "undo"@ {
        Some(Command::Undo)
    } else if s == "redo"@ {
        Some(Command::Redo)
    } else if s == "exit"@ {
        Some(Command::Exit)
    } else {
        None
    }
}

pub open spec fn spec_command_as_str(c: Command) -> Seq<char> {
    match c {
        Command::Add => "add"@,
        Command::Pick => "pick"@,
        Command::Remove => "remove"@,
        Command::Undo => "undo"@,
        Command::Redo => "redo"@,
        Command::Exit => "exit"@,
    }
}

impl Command {
    pub fn from_str(command: &str) -> (r: Option<Command>)
        ensures
            r == spec_command_from_str(command@),
    {
        if str_eq(command, "add") {
            Some(Command::Add)
        } else if str_eq(command, "pick") {
            Some(Command::Pick)
        } else if str_eq(command, "remove") {
            Some(Command::Remove)
        } else if str_eq(command, "undo") {
            Some(Command::Undo)
        } else if str_eq(command, "redo") {
            Some(Command::Redo)
        } else if str_eq(command, "exit") {
            Some(Command::Exit)
        } else {
            None
        }
    }

    pub fn as_str(&self) -> (r: &'static str)
        ensures
            r@ == spec_command_as_str(*self),
    {
        match self {
            Command::Add => "add",
            Command::Pick => "pick",
            Command::Remove => "remove",
            Command::Undo => "undo",
            Command::Redo => "redo",
            Command::Exit => "exit",
        }
    }
}

/// The one-shot (argument mode) command set. `entries` and `topics` are two
/// spellings of the same listing command.
#[derive(Copy, Clone, Debug, PartialEq, Eq)]
pub enum ArgCommand {
    Add,
    Pick,
    Remove,
    Entries,
    List,
    Switch,
}

pub open spec fn spec_arg_command_from_str(s: Seq<char>) -> Option<ArgCommand> {
    if s == "add"@ {
        Some(ArgCommand::Add)
    } else if s == "pick"@ {
        Some(ArgCommand::Pick)
    } else if s == "remove"@ {
        Some(ArgCommand::Remove)
    } else if s == "entries"@ {
        Some(ArgCommand::Entries)
    } else if s == "topics"@ {
        Some(ArgCommand::Entries)
    } else if s == "list"@ {
        Some(ArgCommand::List)
    } else if s == "switch"@ {
        Some(ArgCommand::Switch)
    } else {
        None
    }
}

pub open spec fn spec_arg_command_as_str(c: ArgCommand) -> Seq<char> {
    match c {
        ArgCommand::Add => "add"@,
        ArgCommand::Pick => "pick"@,
        ArgCommand::Remove => "remove"@,
        ArgCommand::Entries => "entries"@,
        ArgCommand::List => "list"@,
        ArgCommand::Switch => "switch"@,
    }
}

impl ArgCommand {
    pub fn from_str(command: &str) -> (r: Option<ArgCommand>)
        ensures
            r == spec_arg_command_from_str(command@),
    {
        if str_eq(command, "add") {
            Some(ArgCommand::Add)
        } else if str_eq(command, "pick") {
            Some(ArgCommand::Pick)
        } else if str_eq(command, "remove") {
            Some(ArgCommand::Remove)
        } else if str_eq(command, "entries") {
            Some(ArgCommand::Entries)
        } else if str_eq(command, "topics") {
            Some(ArgCommand::Entries)
        } else if str_eq(command, "list") {
            Some(ArgCommand::List)
        } else if str_eq(command, "switch") {
            Some(ArgCommand::Switch)
        } else {
            None
        }
    }

    pub fn as_str(&self) -> (r: &'static str)
        ensures
            r@ == spec_arg_command_as_str(*self),
    {
        match self {
            ArgCommand::Add => "add",
            ArgCommand::Pick => "pick",
            ArgCommand::Remove => "remove",
            ArgCommand::Entries => "entries",
            ArgCommand::List => "list",
            ArgCommand::Switch => "switch",
        }
    }
}

/// The interactive command set of the session loop, including switching to
/// another list and refreshing the active one.
#[derive(Copy, Clone, Debug, PartialEq, Eq)]
pub enum RuntimeCommand {
    Add,
    Pick,
    Remove,
    Undo,
    Redo,
    Switch,
    Refresh,
    Exit,
}

pub open spec fn spec_runtime_command_from_str(s: Seq<char>) -> Option<RuntimeCommand> {
    if s == "add"@ {
        Some(RuntimeCommand::Add)
    } else if s == "pick"@ {
        Some(RuntimeCommand::Pick)
    } else if s == "remove"@ {
        Some(RuntimeCommand::Remove)
    } else if s == "undo"@ {
        Some(RuntimeCommand::Undo)
    } else if s == "redo"@ {
        Some(RuntimeCommand::Redo)
    } else if s == "switch"@ {
        Some(RuntimeCommand::Switch)
    } else if s == "refresh"@ {
        Some(RuntimeCommand::Refresh)
    } else if s == "exit"@ {
        Some(RuntimeCommand::Exit)
    } else {
        None
    }
}

pub open spec fn spec_runtime_command_as_str(c: RuntimeCommand) -> Seq<char> {
    match c {
        RuntimeCommand::Add => "add"@,
        RuntimeCommand::Pick => "pick"@,
        RuntimeCommand::Remove => "remove"@,
        RuntimeCommand::Undo => "undo"@,
        RuntimeCommand::Redo => "redo"@,
        RuntimeCommand::Switch => "switch"@,
        RuntimeCommand::Refresh => "refresh"@,
        RuntimeCommand::Exit => "exit"@,
    }
}

impl RuntimeCommand {
    pub fn from_str(command: &str) -> (r: Option<RuntimeCommand>)
        ensures
            r == spec_runtime_command_from_str(command@),
    {
        if str_eq(command, "add") {
            Some(RuntimeCommand::Add)
        } else if str_eq(command, "pick") {
            Some(RuntimeCommand::Pick)
        } else if str_eq(command, "remove") {
            Some(RuntimeCommand::Remove)
        } else if str_eq(command, "undo") {
            Some(RuntimeCommand::Undo)
        } else if str_eq(command, "redo") {
            Some(RuntimeCommand::Redo)
        } else if str_eq(command, "switch") {
            Some(RuntimeCommand::Switch)
        } else if str_eq(command, "refresh") {
            Some(RuntimeCommand::Refresh)
        } else if str_eq(command, "exit") {
            Some(RuntimeCommand::Exit)
        } else {
            None
        }
    }

    pub fn as_str(&self) -> (r: &'static str)
        ensures
            r@ == spec_runtime_command_as_str(*self),
    {
        match self {
            RuntimeCommand::Add => "add",
            RuntimeCommand::Pick => "pick",
            RuntimeCommand::Remove => "remove",
            RuntimeCommand::Undo => "undo",
            RuntimeCommand::Redo => "redo",
            RuntimeCommand::Switch => "switch",
            RuntimeCommand::Refresh => "refresh",
            RuntimeCommand::Exit => "exit",
        }
    }
}

/// A command set that can be read from and written back as its spelled-out
/// name.
pub trait StrEnum where Self: Sized {
    fn as_str(&self) -> &'static str;

    fn from_str(command: &str) -> Option<Self>;
}

impl StrEnum for ArgCommand {
    fn as_str(&self) -> &'static str {
        ArgCommand::as_str(self)
    }

    fn from_str(command: &str) -> Option<ArgCommand> {
        ArgCommand::from_str(command)
    }
}

impl StrEnum for RuntimeCommand {
    fn as_str(&self) -> &'static str {
        RuntimeCommand::as_str(self)
    }

    fn from_str(command: &str) -> Option<RuntimeCommand> {
        RuntimeCommand::from_str(command)
    }
}

} // verus!
