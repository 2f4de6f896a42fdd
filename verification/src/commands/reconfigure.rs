//! The command that `xbps-reconfigure` carries out.

use vstd::prelude::*;
use vstd::string::StringExecFns;

verus! {

/// The invocation that configures an installed package again.
pub open spec fn reconfigure_argv(package: Seq<char>) -> Seq<Seq<char>> {
    seq!["xbps-reconfigure"@, "-v"@, package]
}

/// The invocation that configures `package` again.
pub fn reconfigure(package: String) -> (argv: Vec<String>)
    ensures
        argv.deep_view() == reconfigure_argv(package@),
{
    let mut argv: Vec<String> = Vec::new();
    argv.push(String::from_str("xbps-reconfigure"));
    argv.push(String::from_str("-v"));
    argv.push(package);
    argv
}

} // verus!
