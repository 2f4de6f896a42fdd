//! Commands that `xbps-remove` carries out.

use vstd::prelude::*;
use vstd::string::StringExecFns;

verus! {

/// The invocation that removes the packages.
pub open spec fn remove_argv(packages: Seq<Seq<char>>) -> Seq<Seq<char>> {
    seq!["xbps-remove"@, "-v"@] + packages
}

/// The invocation that removes the packages and the dependencies that
/// nothing else needs.
pub open spec fn remove_recursive_argv(packages: Seq<Seq<char>>) -> Seq<Seq<char>> {
    seq!["xbps-remove"@, "-v"@, "-R"@] + packages
}

/// The invocation that cleans the package cache.
pub open spec fn cleanup_argv() -> Seq<Seq<char>> {
    seq!["xbps-remove"@, "-v"@, "-O"@]
}

/// The invocation that removes orphaned packages.
pub open spec fn autoremove_argv() -> Seq<Seq<char>> {
    seq!["xbps-remove"@, "-v"@, "-o"@]
}

/// The invocation that removes the packages.
pub fn remove(packages: Vec<String>) -> (argv: Vec<String>)
    ensures
        argv.deep_view() == remove_argv(packages.deep_view()),
{
    let mut packages = packages;
    let mut argv: Vec<String> = Vec::new();
    argv.push(String::from_str("xbps-remove"));
    argv.push(String::from_str("-v"));
    argv.append(&mut packages);
    argv
}

/// The invocation that removes the packages and the dependencies that
/// nothing else needs.
pub fn remove_recursive(packages: Vec<String>) -> (argv: Vec<String>)
    ensures
        argv.deep_view() == remove_recursive_argv(packages.deep_view()),
{
    let mut packages = packages;
    let mut argv: Vec<String> = Vec::new();
    argv.push(String::from_str("xbps-remove"));
    argv.push(String::from_str("-v"));
    argv.push(String::from_str("-R"));
    argv.append(&mut packages);
    argv
}

/// The invocation that cleans the package cache.
pub fn cleanup() -> (argv: Vec<String>)
    ensures
        argv.deep_view() == cleanup_argv(),
{
    let mut argv: Vec<String> = Vec::new();
    argv.push(String::from_str("xbps-remove"));
    argv.push(String::from_str("-v"));
    argv.push(String::from_str("-O"));
    argv
}

/// The invocation that removes orphaned packages.
pub fn autoremove() -> (argv: Vec<String>)
    ensures
        argv.deep_view() == autoremove_argv(),
{
    let mut argv: Vec<String> = Vec::new();
    argv.push(String::from_str("xbps-remove"));
    argv.push(String::from_str("-v"));
    argv.push(String::from_str("-o"));
    argv
}

} // verus!
