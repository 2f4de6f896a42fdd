//! Commands that ask the package database and change nothing.

use vstd::prelude::*;
use vstd::string::StringExecFns;

verus! {

/// The two invocations that list repositories: first the configured ones,
/// then the sub-repositories on offer.
pub open spec fn list_repos_argvs() -> Seq<Seq<Seq<char>>> {
    seq![
        seq!["xbps-query"@, "-v"@, "-L"@],
        seq!["xbps-query"@, "-v"@, "-Rs"@, "void-repo"@],
    ]
}

/// The invocation that shows information about a package.
pub open spec fn info_argv(package: Seq<char>) -> Seq<Seq<char>> {
    seq!["xbps-query"@, "-v"@, "-R"@, package]
}

/// The invocation that shows the files of a package.
pub open spec fn file_list_argv(package: Seq<char>) -> Seq<Seq<char>> {
    seq!["xbps-query"@, "-v"@, "-R"@, "-f"@, package]
}

/// The invocation that shows the dependencies of a package.
pub open spec fn dependencies_argv(package: Seq<char>) -> Seq<Seq<char>> {
    seq!["xbps-query"@, "-v"@, "-R"@, "-x"@, package]
}

/// The invocation that shows what depends on a package, directly or not.
pub open spec fn reverse_argv(package: Seq<char>) -> Seq<Seq<char>> {
    seq!["xbps-query"@, "-v"@, "-R"@, "-X"@, package]
}

/// The invocation that searches the repositories for a name.
pub open spec fn search_argv(name: Seq<char>) -> Seq<Seq<char>> {
    seq!["xbps-query"@, "-v"@, "-Rs"@, name]
}

/// The invocation that searches the installed packages for a file of that
/// name in any directory.
pub open spec fn search_file_argv(file: Seq<char>) -> Seq<Seq<char>> {
    seq!["xbps-query"@, "-v"@, "-o"@, "*/"@ + file]
}

/// The invocation that lists the installed packages.
pub open spec fn list_argv() -> Seq<Seq<char>> {
    seq!["xbps-query"@, "-v"@, "-l"@]
}

/// The invocation that searches the file index of all packages.
pub open spec fn what_provides_argv(file: Seq<char>) -> Seq<Seq<char>> {
    seq!["xlocate"@, file]
}

/// The invocations that list the configured repositories and the
/// sub-repositories on offer.
pub fn list_repos() -> (argvs: Vec<Vec<String>>)
    ensures
        argvs.deep_view() == list_repos_argvs(),
{
    let mut configured: Vec<String> = Vec::new();
    configured.push(String::from_str("xbps-query"));
    configured.push(String::from_str("-v"));
    configured.push(String::from_str("-L"));
    let mut available: Vec<String> = Vec::new();
    available.push(String::from_str("xbps-query"));
    available.push(String::from_str("-v"));
    available.push(String::from_str("-Rs"));
    available.push(String::from_str("void-repo"));
    assert(configured.deep_view() == list_repos_argvs()[0]);
    assert(available.deep_view() == list_repos_argvs()[1]);
    let mut argvs: Vec<Vec<String>> = Vec::new();
    argvs.push(configured);
    argvs.push(available);
    argvs
}

/// The invocation that shows information about `package`.
pub fn info(package: String) -> (argv: Vec<String>)
    ensures
        argv.deep_view() == info_argv(package@),
{
    let mut argv: Vec<String> = Vec::new();
    argv.push(String::from_str("xbps-query"));
    argv.push(String::from_str("-v"));
    argv.push(String::from_str("-R"));
    argv.push(package);
    argv
}

/// The invocation that shows the files of `package`.
pub fn file_list(package: String) -> (argv: Vec<String>)
    ensures
        argv.deep_view() == file_list_argv(package@),
{
    let mut argv: Vec<String> = Vec::new();
    argv.push(String::from_str("xbps-query"));
    argv.push(String::from_str("-v"));
    argv.push(String::from_str("-R"));
    argv.push(String::from_str("-f"));
    argv.push(package);
    argv
}

/// The invocation that shows the dependencies of `package`.
pub fn dependencies(package: String) -> (argv: Vec<String>)
    ensures
        argv.deep_view() == dependencies_argv(package@),
{
    let mut argv: Vec<String> = Vec::new();
    argv.push(String::from_str("xbps-query"));
    argv.push(String::from_str("-v"));
    argv.push(String::from_str("-R"));
    argv.push(String::from_str("-x"));
    argv.push(package);
    argv
}

/// The invocation that shows what depends on `package`.
pub fn reverse(package: String) -> (argv: Vec<String>)
    ensures
        argv.deep_view() == reverse_argv(package@),
{
    let mut argv: Vec<String> = Vec::new();
    argv.push(String::from_str("xbps-query"));
    argv.push(String::from_str("-v"));
    argv.push(String::from_str("-R"));
    argv.push(String::from_str("-X"));
    argv.push(package);
    argv
}

/// The invocation that searches the repositories for `name`.
pub fn search(name: String) -> (argv: Vec<String>)
    ensures
        argv.deep_view() == search_argv(name@),
{
    let mut argv: Vec<String> = Vec::new();
    argv.push(String::from_str("xbps-query"));
    argv.push(String::from_str("-v"));
    argv.push(String::from_str("-Rs"));
    argv.push(name);
    argv
}

/// The invocation that searches the installed packages for `file`.
pub fn search_file(file: String) -> (argv: Vec<String>)
    ensures
        argv.deep_view() == search_file_argv(file@),
{
    let mut pattern = String::from_str("*/");
    pattern.append(file.as_str());
    let mut argv: Vec<String> = Vec::new();
    argv.push(String::from_str("xbps-query"));
    argv.push(String::from_str("-v"));
    argv.push(String::from_str("-o"));
    argv.push(pattern);
    argv
}

/// The invocation that lists the installed packages.
pub fn list() -> (argv: Vec<String>)
    ensures
        argv.deep_view() == list_argv(),
{
    let mut argv: Vec<String> = Vec::new();
    argv.push(String::from_str("xbps-query"));
    argv.push(String::from_str("-v"));
    argv.push(String::from_str("-l"));
    argv
}

/// The invocation that searches the file index of all packages for `file`.
pub fn what_provides(file: String) -> (argv: Vec<String>)
    ensures
        argv.deep_view() == what_provides_argv(file@),
{
    let mut argv: Vec<String> = Vec::new();
    argv.push(String::from_str("xlocate"));
    argv.push(file);
    argv
}

} // verus!
