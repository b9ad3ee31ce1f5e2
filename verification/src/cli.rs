//! The command-line grammar.
//!
//! The accepted invocations are `<prog> on`, `<prog> off`,
//! `<prog> status [--json]` and the hidden `<prog> daemon-internal`.
//! Anything else is a usage error, which exits with its own status.

use vstd::prelude::*;
use crate::error::ExitCode;
use crate::text::str_eq;

verus! {

/// The raw subcommand as it appears on the command line.
#[derive(Debug, Clone)]
pub enum Commands {
    /// Turn the display on.
    On,
    /// Turn the display off.
    Off,
    /// Show the display's power state.
    Status { json: bool },
    /// Run as the daemon process (not for user use).
    DaemonInternal,
}

/// The operation an invocation asks for.
#[derive(Debug, Clone)]
pub enum Command {
    On,
    Off,
    Status { json: bool },
    /// Internal: run as daemon process (not for user use).
    DaemonInternal,
}

/// A parsed command line.
#[derive(Debug, Clone)]
pub struct Cli {
    pub command: Commands,
}

/// A rejected command line.
#[derive(Debug)]
pub struct UsageError {
    pub message: String,
}

impl UsageError {
    /// Usage errors exit with the usage status, distinct from runtime errors.
    pub fn exit_code(&self) -> (r: i32)
        ensures
            r == ExitCode::Usage.spec_code(),
    {
        2
    }
}

/// The command line accepted by the grammar, if any.  `args[0]` is the
/// program name; `args[1]` the subcommand; `status` may take `--json`.
pub open spec fn spec_parse(args: Seq<String>) -> Option<Commands> {
    if args.len() < 2 {
        None
    } else if args[1]@ == "on"@ {
        if args.len() == 2 {
            Some(Commands::On)
        } else {
            None
        }
    } else if args[1]@ == "off"@ {
        if args.len() == 2 {
            Some(Commands::Off)
        } else {
            None
        }
    } else if args[1]@ == "daemon-internal"@ {
        if args.len() == 2 {
            Some(Commands::DaemonInternal)
        } else {
            None
        }
    } else if args[1]@ == "status"@ {
        if args.len() == 2 {
            Some(Commands::Status { json: false })
        } else if args.len() == 3 && args[2]@ == "--json"@ {
            Some(Commands::Status { json: true })
        } else {
            None
        }
    } else {
        None
    }
}

/// The operation a raw subcommand stands for.
pub open spec fn spec_command_of(cmd: Commands) -> Command {
    match cmd {
        Commands::On => Command::On,
        Commands::Off => Command::Off,
        Commands::Status { json } => Command::Status { json },
        Commands::DaemonInternal => Command::DaemonInternal,
    }
}

impl Cli {
    /// Parse a full argument list; a command line outside the grammar is a
    /// usage error.
    pub fn try_parse_from(args: &Vec<String>) -> (r: Result<Cli, UsageError>)
        ensures
            match spec_parse(args@) {
                Some(c) => r matches Ok(cli) && cli.command == c,
                None => r is Err,
            },
    {
        if args.len() < 2 {
            return Err(UsageError { message: "expected a subcommand".to_owned() });
        }
        let sub = args[1].as_str();
        if str_eq(sub, "on") {
            if args.len() == 2 {
                Ok(Cli { command: Commands::On })
            } else {
                Err(UsageError { message: "unexpected argument".to_owned() })
            }
        } else if str_eq(sub, "off") {
            if args.len() == 2 {
                Ok(Cli { command: Commands::Off })
            } else {
                Err(UsageError { message: "unexpected argument".to_owned() })
            }
        } else if str_eq(sub, "daemon-internal") {
            if args.len() == 2 {
                Ok(Cli { command: Commands::DaemonInternal })
            } else {
                Err(UsageError { message: "unexpected argument".to_owned() })
            }
        } else if str_eq(sub, "status") {
            if args.len() == 2 {
                Ok(Cli { command: Commands::Status { json: false } })
            } else if args.len() == 3 && str_eq(args[2].as_str(), "--json") {
                Ok(Cli { command: Commands::Status { json: true } })
            } else {
                Err(UsageError { message: "unexpected argument".to_owned() })
            }
        } else {
            Err(UsageError { message: "unrecognized subcommand".to_owned() })
        }
    }
}

/// Map the raw subcommand to the operation it stands for.
pub fn command_from_commands(cmd: Commands) -> (r: Command)
    ensures
        r == spec_command_of(cmd),
{
    match cmd {
        Commands::On => Command::On,
        Commands::Off => Command::Off,
        Commands::Status { json } => Command::Status { json },
        Commands::DaemonInternal => Command::DaemonInternal,
    }
}

/// Parse a full argument list into the operation it asks for.
pub fn parse(args: &Vec<String>) -> (r: Result<Command, UsageError>)
    ensures
        match spec_parse(args@) {
            Some(c) => r matches Ok(cmd) && cmd == spec_command_of(c),
            None => r is Err,
        },
{
    match Cli::try_parse_from(args) {
        Ok(cli) => Ok(command_from_commands(cli.command)),
        Err(e) => Err(e),
    }
}

} // verus!
