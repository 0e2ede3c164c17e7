//! The command-line surface of the tool.

pub mod config;
pub mod start;

use vstd::prelude::*;

verus! {

/// The parsed command line.
#[derive(Debug)]
pub struct Cli {
    pub subcommand: Subcommands,
}

/// The tool's subcommands.
#[derive(Debug)]
pub enum Subcommands {
    /// Start the relay.
    Start(start::CommandArguments),
    /// Configuration helpers.
    Config(config::CommandSubcommands),
}

} // verus!
