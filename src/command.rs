//! The command line of the server, as values.

use vstd::prelude::*;

verus! {

/// How much the server logs.
#[derive(Debug, Clone, Copy, PartialEq, Eq, Structural)]
pub struct Verbosity {
    /// Enable verbose output.
    pub verbose: bool,
    /// Suppress informational messages.
    pub quiet: bool,
}

/// What the server is asked to do.
#[derive(Debug, Clone)]
pub enum Commands {
    /// Start the HTTP server and wait.
    Launch { path: Option<String> },
    /// Print the configuration and exit.
    Info { path: Option<String> },
}

/// The server's command line.
#[derive(Debug, Clone)]
pub struct Arguments {
    pub command: Commands,
    pub verbosity: Verbosity,
}

impl Commands {
    /// The configuration file that the command names, if any.
    pub fn path(&self) -> (r: &Option<String>)
        ensures
            r == match self {
                Commands::Launch { path } => path,
                Commands::Info { path } => path,
            },
    {
        match self {
            Commands::Launch { path } => path,
            Commands::Info { path } => path,
        }
    }
}

} // verus!
