//! The command line of the `multicloud` program: which mode a first argument selects.
use crate::text::str_equals;
use vstd::prelude::*;

verus! {

/// A mode of the program.
#[derive(Clone, Copy, Debug, PartialEq, Eq, Structural)]
pub enum Command {
    /// API, worker and scheduler together (the default).
    Serve,
    Help,
    Version,
    Worker,
    Scheduler,
    Agent,
    Migrate,
    /// Apply migrations, then create the first administrator.
    Init,
    RecoverAccess,
}

/// The mode that a first argument names; `None` for an unknown command.
pub open spec fn command_of(argument: Option<Seq<char>>) -> Option<Command> {
    match argument {
        None => Some(Command::Serve),
        Some(a) => if a == "serve"@ {
            Some(Command::Serve)
        } else if a == "help"@ || a == "--help"@ || a == "-h"@ {
            Some(Command::Help)
        } else if a == "version"@ || a == "--version"@ || a == "-V"@ {
            Some(Command::Version)
        } else if a == "worker"@ {
            Some(Command::Worker)
        } else if a == "scheduler"@ {
            Some(Command::Scheduler)
        } else if a == "agent"@ {
            Some(Command::Agent)
        } else if a == "migrate"@ {
            Some(Command::Migrate)
        } else if a == "init"@ {
            Some(Command::Init)
        } else if a == "recover-access"@ {
            Some(Command::RecoverAccess)
        } else {
            None
        },
    }
}

pub fn parse_command(argument: Option<&str>) -> (r: Option<Command>)
    ensures
        r == command_of(
            match argument {
                Some(a) => Some(a@),
                None => None,
            },
        ),
{
    match argument {
        None => Some(Command::Serve),
        Some(a) => if str_equals(a, "serve") {
            Some(Command::Serve)
        } else if str_equals(a, "help") || str_equals(a, "--help") || str_equals(a, "-h") {
            Some(Command::Help)
        } else if str_equals(a, "version") || str_equals(a, "--version") || str_equals(a, "-V") {
            Some(Command::Version)
        } else if str_equals(a, "worker") {
            Some(Command::Worker)
        } else if str_equals(a, "scheduler") {
            Some(Command::Scheduler)
        } else if str_equals(a, "agent") {
            Some(Command::Agent)
        } else if str_equals(a, "migrate") {
            Some(Command::Migrate)
        } else if str_equals(a, "init") {
            Some(Command::Init)
        } else if str_equals(a, "recover-access") {
            Some(Command::RecoverAccess)
        } else {
            None
        },
    }
}

/// `migrate` takes nothing more, or `up`.
pub fn migrate_argument_ok(argument: Option<&str>) -> (r: bool)
    ensures
        r == match argument {
            None => true,
            Some(a) => a@ == "up"@,
        },
{
    match argument {
        None => true,
        Some(a) => str_equals(a, "up"),
    }
}

/// The usage message: the program's name, its synopsis, and one line for each command.
pub open spec fn help_message() -> Seq<char> {
    "MultiCloud control plane\n\nUsage: multicloud [COMMAND]\n\nCommands:\n  serve          Run API, Worker, and Scheduler (default)\n  migrate [up]   Apply all pending database migrations\n  init           Initialize the first platform administrator\n  recover-access Recover a platform administrator account\n  worker         Run only the Worker loop\n  scheduler      Run only the Scheduler loop\n  agent          Run the Rust Agent mode\n  help           Show this help\n  version        Show version information"@
}

/// What `help` prints.
pub fn help_text() -> (r: &'static str)
    ensures
        r@ == help_message(),
{
    "MultiCloud control plane\n\nUsage: multicloud [COMMAND]\n\nCommands:\n  serve          Run API, Worker, and Scheduler (default)\n  migrate [up]   Apply all pending database migrations\n  init           Initialize the first platform administrator\n  recover-access Recover a platform administrator account\n  worker         Run only the Worker loop\n  scheduler      Run only the Scheduler loop\n  agent          Run the Rust Agent mode\n  help           Show this help\n  version        Show version information"
}

} // verus!
