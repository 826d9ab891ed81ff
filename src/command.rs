use vstd::prelude::*;

verus! {

/// What one run of the tool is asked to do.
#[derive(Debug, Clone, PartialEq, Eq)]
pub enum Command {
    Help,
    Init,
    List,
    All,
    Check(i32),
    Add(String),
}

/// Why the arguments name no command that can run.
#[derive(Debug, Clone, PartialEq, Eq)]
pub enum ArgError {
    UnknownCommand(String),
    MissingId,
    MissingText,
}

/// The command that a name and the two optional flags select.
pub open spec fn command_of(name: String, text: Option<String>, id: Option<i32>) -> Result<
    Command,
    ArgError,
> {
    if name@ == "help"@ {
        Ok(Command::Help)
    } else if name@ == "init"@ {
        Ok(Command::Init)
    } else if name@ == "list"@ {
        Ok(Command::List)
    } else if name@ == "all"@ {
        Ok(Command::All)
    } else if name@ == "check"@ {
        match id {
            Some(i) => Ok(Command::Check(i)),
            None => Err(ArgError::MissingId),
        }
    } else if name@ == "add"@ {
        match text {
            Some(t) => Ok(Command::Add(t)),
            None => Err(ArgError::MissingText),
        }
    } else {
        Err(ArgError::UnknownCommand(name))
    }
}

/// The names that select a command.
pub open spec fn is_command_name(name: Seq<char>) -> bool {
    name == "help"@ || name == "init"@ || name == "list"@ || name == "all"@ || name == "check"@
        || name == "add"@
}

/// Selects the command by exact match on its name; `check` needs an id and
/// `add` a text.
pub fn parse_command(name: String, text: Option<String>, id: Option<i32>) -> (r: Result<
    Command,
    ArgError,
>)
    ensures
        r == command_of(name, text, id),
{
    if name == String::from_str("help") {
        Ok(Command::Help)
    } else if name == String::from_str("init") {
        Ok(Command::Init)
    } else if name == String::from_str("list") {
        Ok(Command::List)
    } else if name == String::from_str("all") {
        Ok(Command::All)
    } else if name == String::from_str("check") {
        match id {
            Some(i) => Ok(Command::Check(i)),
            None => Err(ArgError::MissingId),
        }
    } else if name == String::from_str("add") {
        match text {
            Some(t) => Ok(Command::Add(t)),
            None => Err(ArgError::MissingText),
        }
    } else {
        Err(ArgError::UnknownCommand(name))
    }
}

impl Command {
    /// Whether the command reads or writes the store; only `help` does not.
    pub fn needs_store(&self) -> (r: bool)
        ensures
            r == !(self is Help),
    {
        match self {
            Command::Help => false,
            _ => true,
        }
    }
}

/// A name that is none of the six commands is refused as unknown, whatever
/// flags come with it; nothing else is selected for it.
pub proof fn lemma_unknown_name_refused(name: String, text: Option<String>, id: Option<i32>)
    requires
        !is_command_name(name@),
    ensures
        command_of(name, text, id) == Err::<Command, ArgError>(ArgError::UnknownCommand(name)),
{
}

} // verus!
