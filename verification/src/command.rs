//! The command surface the CLI maps onto: plain data, parsed by the I/O
//! layer and dispatched to the lifecycle operations.

use vstd::prelude::*;

verus! {

/// One operation of the supervisor's command-line surface.
pub enum Command {
    /// Start the service.
    Start,
    /// Stop the service.
    Stop,
    /// Restart the service.
    Restart,
    /// Show the current service status.
    Status,
    /// Enable or disable autostart.
    SetAutostart { autostart: bool },
    /// Show whether autostart is enabled.
    GetAutostart,
    /// Show the module version.
    ModuleVersion,
    /// Show the engine binary version.
    BinaryVersion,
    /// Run the engine directly with the given arguments — a diagnostic
    /// bypass of the orchestrator, without daemonization or rules.
    Args { args: Vec<String> },
}

impl Command {
    /// Whether the operation demands elevated privilege: exactly the four
    /// lifecycle operations.
    pub fn requires_privilege(&self) -> (r: bool)
        ensures
            r == (self matches Command::Start || self matches Command::Stop
                || self matches Command::Restart || self matches Command::Status),
    {
        match self {
            Command::Start => true,
            Command::Stop => true,
            Command::Restart => true,
            Command::Status => true,
            _ => false,
        }
    }
}

/// A parsed invocation: the command, if one was given on the line.
pub struct CliApp {
    pub cmd: Option<Command>,
}

impl CliApp {
    /// The command to execute, if one was given.
    pub fn cmd(&self) -> (r: &Option<Command>)
        ensures
            r == &self.cmd,
    {
        &self.cmd
    }
}

} // verus!
