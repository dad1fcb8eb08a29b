//! Commands that can be sent to a printer.
use vstd::prelude::*;

verus! {

/// System commands. None is defined yet, so no value of this type can be
/// made outside this module.
#[derive(Clone, Copy, PartialEq, Eq, Debug, Structural)]
pub struct SystemCommand {
    none_defined: bool,
}

#[derive(Clone, Copy, PartialEq, Eq, Debug, Structural)]
pub enum PrintCommand {
    Pause,
    Resume,
    Stop,
}

#[derive(Clone, Copy, PartialEq, Eq, Debug, Structural)]
pub enum InfoCommand {
    GetVersion,
}

#[derive(Clone, Copy, PartialEq, Eq, Debug, Structural)]
pub enum Command {
    System { sequence_id: usize, command: SystemCommand },
    Print { sequence_id: usize, command: PrintCommand },
    Info { sequence_id: usize, command: InfoCommand },
}

impl Command {
    pub fn system(sequence_id: usize, command: SystemCommand) -> (r: Self)
        ensures
            r == (Command::System { sequence_id, command }),
    {
        Command::System { sequence_id, command }
    }

    pub fn print(sequence_id: usize, command: PrintCommand) -> (r: Self)
        ensures
            r == (Command::Print { sequence_id, command }),
    {
        Command::Print { sequence_id, command }
    }

    pub fn info(sequence_id: usize, command: InfoCommand) -> (r: Self)
        ensures
            r == (Command::Info { sequence_id, command }),
    {
        Command::Info { sequence_id, command }
    }
}

} // verus!
