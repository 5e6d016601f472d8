//! The tool's command surface, as plain data. Parsing a command line
//! into these values is the shell's concern.

use vstd::prelude::*;
use crate::sync::SyncOptions;

verus! {

/// One invocation of the tool.
#[derive(Debug)]
pub struct Cli {
    pub command: Commands,
}

/// The tool's subcommands.
#[derive(Debug)]
pub enum Commands {
    /// Install the named packages, updating those already installed.
    Install { packages: Vec<String>, yes: bool, force: bool, no_scripts: bool },
    /// Search packages and collections for a query.
    Search { query: String },
    /// Show one package or collection.
    Inspect { package: String },
    /// Install every package the catalog has.
    InstallEverything { yes: bool, force: bool, no_scripts: bool },
    /// Update the named packages, installing those not yet installed.
    Update { packages: Vec<String>, yes: bool, force: bool, no_scripts: bool },
}

/// The switches the install and update commands share.
#[derive(Debug)]
pub struct InstallUpdateArgs<'a> {
    /// Skip the confirmation prompt.
    pub yes: &'a bool,
    /// Replace a non-conforming install path instead of failing.
    pub force: &'a bool,
    /// Do not run lifecycle hooks.
    pub no_scripts: &'a bool,
}

impl<'a> InstallUpdateArgs<'a> {
    /// The same switches in the synchronization machine's terms.
    pub fn sync_options(&self) -> (r: SyncOptions)
        ensures
            r.skip_confirmation == *self.yes,
            r.force == *self.force,
            r.skip_hooks == *self.no_scripts,
    {
        SyncOptions {
            skip_confirmation: *self.yes,
            force: *self.force,
            skip_hooks: *self.no_scripts,
        }
    }
}

} // verus!
