//! What the user asked for: the command, and how to show its outcome.

use vstd::prelude::*;

verus! {

/// When output is coloured.
#[derive(Debug, Clone, Copy, PartialEq, Eq, Structural)]
pub enum ColorMode {
    /// Where the output is a terminal that takes colours.
    Auto,
    Always,
    Never,
}

/// The arguments of one invocation.
#[derive(Debug, PartialEq, Eq)]
pub struct Args {
    pub command: Command,
    /// When to colour the output.
    pub color: ColorMode,
    /// Whether each line of output names the XBPS command it came from.
    pub verbose: bool,
}

/// One package-management operation.
#[derive(Debug, PartialEq, Eq)]
pub enum Command {
    /// Synchronize remote repository data.
    Sync,
    /// Update the system.
    Update,
    /// List configured repositories.
    ListRepos,
    /// Add repositories.
    AddRepo { repos: Vec<String> },
    /// Show information about a package.
    Info { package: String },
    /// Show the files of a package.
    FileList { package: String },
    /// Show the dependencies of a package.
    Dependencies { package: String },
    /// Show what depends on a package.
    Reverse { package: String },
    /// Search for packages by name.
    Search { name: String },
    /// Search for installed packages that hold a file.
    SearchFile { file: String },
    /// List installed packages.
    List,
    /// Install packages.
    Install { packages: Vec<String> },
    /// Install packages and their `-devel` companions.
    DevInstall { packages: Vec<String> },
    /// List the alternatives of a package.
    ListAlternatives { package: String, groups: Vec<String> },
    /// Set the alternative of a package.
    SetAlternative { package: String, groups: Vec<String> },
    /// Configure an installed package again.
    Reconfigure { package: String },
    /// Install packages even where they are installed already.
    ForceInstall { packages: Vec<String> },
    /// Remove packages.
    Remove { packages: Vec<String> },
    /// Remove packages and the dependencies that nothing else needs.
    RemoveRecursive { packages: Vec<String> },
    /// Clean the package cache.
    Cleanup,
    /// Remove orphaned packages.
    Autoremove,
    /// Search all packages for one that holds a file.
    WhatProvides { file: String },
    /// Any other subcommand: its name, then its arguments. It goes to the
    /// XBPS tool of that name.
    External(Vec<String>),
}

impl Command {
    /// Whether the command holds what it needs: an external subcommand has a
    /// name.
    pub open spec fn valid(self) -> bool {
        self matches Command::External(args) ==> args.len() > 0
    }

    /// Whether the command holds what it needs.
    pub fn is_valid(&self) -> (valid: bool)
        ensures
            valid == self.valid(),
    {
        match self {
            Command::External(args) => args.len() > 0,
            _ => true,
        }
    }
}

} // verus!
