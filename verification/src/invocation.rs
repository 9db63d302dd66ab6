//! What the caller asked for on the command line, as far as it decides what is
//! done: the subcommand, the verbosity and the startup script.

use vstd::prelude::*;
use vstd::string::StringExecFns;
use crate::errors::{LaunchError, LaunchErrorModel};
use crate::launch::{chain_startup, chained};
use crate::text::{option_view, views};

verus! {

/// How much is logged.
#[derive(Clone, Copy, Debug, PartialEq, Eq, Structural)]
pub enum LogLevel {
    Warn,
    Info,
    Debug,
    Trace,
}

/// The level for a verbosity, if there is one: each step of verbosity up to
/// three logs more, and there is no fourth.
pub open spec fn level_of(verbosity: u8) -> Option<LogLevel> {
    if verbosity == 0 {
        Some(LogLevel::Warn)
    } else if verbosity == 1 {
        Some(LogLevel::Info)
    } else if verbosity == 2 {
        Some(LogLevel::Debug)
    } else if verbosity == 3 {
        Some(LogLevel::Trace)
    } else {
        None
    }
}

/// The level at which to log for the verbosity that the caller asked for.
pub fn log_level(verbosity: u8) -> (out: Result<LogLevel, LaunchError>)
    ensures
        match out {
            Ok(level) => level_of(verbosity) == Some(level),
            Err(e) => level_of(verbosity) is None && e@ == (
            LaunchErrorModel::InvalidVerbositySetting { setting: verbosity }),
        },
{
    match verbosity {
        0 => Ok(LogLevel::Warn),
        1 => Ok(LogLevel::Info),
        2 => Ok(LogLevel::Debug),
        3 => Ok(LogLevel::Trace),
        _ => Err(LaunchError::InvalidVerbositySetting { setting: verbosity }),
    }
}

/// The subcommand that the caller gave.
#[derive(Clone, Debug, PartialEq, Eq)]
pub enum Invocation {
    /// Fetch the image of the configuration.
    Pull,
    /// Run a command in the container.
    Run { command: Vec<String> },
    /// Write shell completions.
    Completion,
    /// No subcommand: an interactive shell in the container.
    Shell,
}

/// What is to be done for an invocation.
#[derive(Clone, Debug, PartialEq, Eq)]
pub enum Intent {
    /// The image of the configuration is fetched; nothing is resolved beyond
    /// the configuration, and no container is run.
    Pull,
    /// A launch, for the requested words; none for an interactive shell.
    Launch { request: Vec<String> },
    /// Shell completions, and no launch.
    Completions,
}

/// The model of an `Intent`.
pub enum IntentModel {
    Pull,
    Launch { request: Seq<Seq<char>> },
    Completions,
}

impl View for Intent {
    type V = IntentModel;

    open spec fn view(&self) -> IntentModel {
        match *self {
            Intent::Pull => IntentModel::Pull,
            Intent::Launch { request } => IntentModel::Launch { request: views(request@) },
            Intent::Completions => IntentModel::Completions,
        }
    }
}

/// What is to be done for an invocation.
pub open spec fn intended(invocation: Invocation) -> IntentModel {
    match invocation {
        Invocation::Pull => IntentModel::Pull,
        Invocation::Run { command } => IntentModel::Launch { request: views(command@) },
        Invocation::Completion => IntentModel::Completions,
        Invocation::Shell => IntentModel::Launch { request: Seq::empty() },
    }
}

/// Decides what is to be done for an invocation.
pub fn intent_of(invocation: Invocation) -> (out: Intent)
    ensures
        out@ == intended(invocation),
{
    match invocation {
        Invocation::Pull => Intent::Pull,
        Invocation::Run { command } => Intent::Launch { request: command },
        Invocation::Completion => Intent::Completions,
        Invocation::Shell => {
            let request: Vec<String> = Vec::new();
            assert(views(request@) =~= Seq::<Seq<char>>::empty());
            Intent::Launch { request }
        },
    }
}

/// Where the caller's startup script is, under the home directory `home`.
pub fn startup_script_path(home: &str) -> (out: String)
    ensures
        out@ == home@ + "/.floki/startup.sh"@,
{
    let mut out = home.to_owned();
    out.append("/.floki/startup.sh");
    out
}

/// The command with the caller's startup script before it, if there is one:
/// the command then runs only if the script succeeds.
pub fn append_global_config(command: &str, script: Option<&str>) -> (out: String)
    ensures
        out@ == match option_view(script) {
            Some(s) => chained(s, command@),
            None => command@,
        },
{
    match script {
        Some(s) => chain_startup(s, command),
        None => command.to_owned(),
    }
}

} // verus!
