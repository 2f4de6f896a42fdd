//! The settings that hold for the whole run.

use crate::arguments::Args;
use vstd::prelude::*;

verus! {

/// The settings of one run, fixed before any command is carried out.
#[derive(Debug, Clone, Copy, PartialEq, Eq, Structural)]
pub struct Config {
    /// Whether each line of output names the XBPS command it came from.
    pub verbose: bool,
}

/// The settings that the arguments ask for.
pub fn init(args: &Args) -> (config: Config)
    ensures
        config.verbose == args.verbose,
{
    Config { verbose: args.verbose }
}

} // verus!
