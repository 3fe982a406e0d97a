//! The command line, as values, and what its commands ask of the display
//! server.

use crate::state::State;
use vstd::prelude::*;

verus! {

/// A Wayland compositor for efficient workflows
#[derive(Clone, Debug, PartialEq, Eq)]
pub struct GlobalArgs {
    /// Use winit as render backend instead of udev
    pub winit_backend: bool,
    /// Log to file instead of standard out
    pub log_file: Option<String>,
    /// Path to lua config file
    pub config: Option<String>,
    pub command: Option<Command>,
}

/// The subcommands of the program.
#[derive(Clone, Debug, PartialEq, Eq)]
pub enum Command {
    Cli(CliArgs),
}

/// The arguments of the subcommand that talks to a running display server.
#[derive(Clone, Debug, PartialEq, Eq)]
pub struct CliArgs {
    pub cli_command: CliCommand,
}

/// What a running display server can be asked to do.
#[derive(Clone, Debug, PartialEq, Eq)]
pub enum CliCommand {
    CloseWindow { window_name: String },
}

impl GlobalArgs {
    /// The command for a running display server, if the command line holds
    /// one.
    pub fn cli_command(&self) -> (c: Option<&CliCommand>)
        ensures
            match self.command {
                Some(Command::Cli(args)) => c == Some(&args.cli_command),
                None => c is None,
            },
    {
        match &self.command {
            Some(Command::Cli(args)) => Some(&args.cli_command),
            None => None,
        }
    }
}

impl State {
    /// The window that `command` is about, by its identifier: the lowest
    /// mapped window that is alive and whose application has the name that the
    /// command gives. Without such a window the command does nothing.
    pub fn window_for_command(&self, command: &CliCommand) -> (r: Option<u64>)
        ensures
            match command {
                CliCommand::CloseWindow { window_name } => match r {
                    Some(id) => exists|w: int|
                        #[trigger] self.first_app(window_name@, Some(w)) && id
                            == self.windows[w].id,
                    None => self.first_app(window_name@, None),
                },
            },
    {
        match command {
            CliCommand::CloseWindow { window_name } => {
                let w = self.window_by_name(window_name.as_str());
                match w {
                    Some(i) => {
                        assert(self.first_app(window_name@, Some(i as int)));
                        Some(self.windows[i].id)
                    },
                    None => None,
                }
            },
        }
    }
}

} // verus!
