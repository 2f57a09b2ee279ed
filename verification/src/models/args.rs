//! What the command line asked for.

use vstd::prelude::*;

verus! {

/// Where the tests run.
#[derive(Clone, Copy, Debug, PartialEq, Eq, Structural)]
pub enum AppMode {
    Local,
    Remote,
}

/// The subcommand.
#[derive(Clone, Debug, PartialEq, Eq)]
pub enum Command {
    /// Generate the integration tests from their descriptions.
    Gen,
    /// Generate the schemas of the description files.
    Schema,
    /// Run the tests.
    Run {
        /// Where to run; asked for interactively when absent.
        mode: Option<AppMode>,
        /// Accept every installation without asking.
        yes: bool,
        /// Prepare the system and stop before the tests.
        setup: bool,
        /// The remote host, as `user@host:port`.
        remote_addr: Option<String>,
    },
    /// Authenticate against the mail provider.
    Gmail,
}

#[derive(Clone, Debug, PartialEq, Eq)]
pub struct AppArgs {
    pub command: Command,
}

impl AppArgs {
    /// The run was asked to stop after the system is prepared.
    pub open spec fn setup_only(&self) -> bool {
        match self.command {
            Command::Run { setup, .. } => setup,
            _ => false,
        }
    }

    /// Whether the run stops after the system is prepared.
    pub fn is_setup_only(&self) -> (b: bool)
        ensures
            b == self.setup_only(),
    {
        match &self.command {
            Command::Run { setup, .. } => *setup,
            _ => false,
        }
    }

    /// Installations are accepted without asking.
    pub open spec fn auto_accept(&self) -> bool {
        match self.command {
            Command::Run { yes, .. } => yes,
            _ => false,
        }
    }

    /// Whether installations are accepted without asking.
    pub fn accepts_installs(&self) -> (b: bool)
        ensures
            b == self.auto_accept(),
    {
        match &self.command {
            Command::Run { yes, .. } => *yes,
            _ => false,
        }
    }
}

} // verus!
