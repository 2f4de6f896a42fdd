//! Commands that `xbps-install` carries out.

use vstd::prelude::*;
use vstd::string::StringExecFns;

verus! {

/// The invocation that synchronizes the repository data.
pub open spec fn sync_argv() -> Seq<Seq<char>> {
    seq!["xbps-install"@, "-S"@]
}

/// The invocation that updates the system.
pub open spec fn update_argv() -> Seq<Seq<char>> {
    seq!["xbps-install"@, "-Suv"@]
}

/// The invocations that add the repositories: one for each, in their order,
/// and a synchronization after the last.
pub open spec fn add_repo_argvs(repos: Seq<Seq<char>>) -> Seq<Seq<Seq<char>>> {
    Seq::new(
        repos.len() + 1,
        |i: int|
            if i < repos.len() {
                seq!["xbps-install"@, repos[i]]
            } else {
                sync_argv()
            },
    )
}

/// The invocation that installs the packages.
pub open spec fn install_argv(packages: Seq<Seq<char>>) -> Seq<Seq<char>> {
    seq!["xbps-install"@, "-S"@] + packages
}

/// The invocation that installs the packages over what is there.
pub open spec fn force_install_argv(packages: Seq<Seq<char>>) -> Seq<Seq<char>> {
    seq!["xbps-install"@, "-Sf"@] + packages
}

/// Each package followed by its development companion, whose name is the
/// package's with `-devel` behind it.
pub open spec fn with_devel(packages: Seq<Seq<char>>) -> Seq<Seq<char>> {
    Seq::new(
        2 * packages.len(),
        |i: int|
            if i % 2 == 0 {
                packages[i / 2]
            } else {
                packages[i / 2] + "-devel"@
            },
    )
}

/// Adding `k` repositories takes `k + 1` invocations: one for each
/// repository, in their order, and the synchronization last.
pub proof fn add_repo_ends_in_sync(repos: Seq<Seq<char>>)
    ensures
        add_repo_argvs(repos).len() == repos.len() + 1,
        add_repo_argvs(repos).last() == sync_argv(),
        forall|i: int|
            0 <= i < repos.len() ==> #[trigger] add_repo_argvs(repos)[i] == seq![
                "xbps-install"@,
                repos[i],
            ],
{
}

/// The companions double the list: `n` packages give `2n` names, each
/// package directly followed by its companion, in the order of the packages.
pub proof fn with_devel_interleaves(packages: Seq<Seq<char>>)
    ensures
        with_devel(packages).len() == 2 * packages.len(),
        forall|k: int|
            0 <= k < packages.len() ==> {
                &&& #[trigger] with_devel(packages)[2 * k] == packages[k]
                &&& with_devel(packages)[2 * k + 1] == packages[k] + "-devel"@
            },
{
}

/// The invocation that synchronizes the repository data.
pub fn sync() -> (argv: Vec<String>)
    ensures
        argv.deep_view() == sync_argv(),
{
    let mut argv: Vec<String> = Vec::new();
    argv.push(String::from_str("xbps-install"));
    argv.push(String::from_str("-S"));
    argv
}

/// The invocation that updates the system.
pub fn update() -> (argv: Vec<String>)
    ensures
        argv.deep_view() == update_argv(),
{
    let mut argv: Vec<String> = Vec::new();
    argv.push(String::from_str("xbps-install"));
    argv.push(String::from_str("-Suv"));
    argv
}

/// The invocations that add the repositories, one for each and in their
/// order, followed by the one that synchronizes the repository data.
pub fn add_repo(repos: Vec<String>) -> (argvs: Vec<Vec<String>>)
    ensures
        argvs.deep_view() == add_repo_argvs(repos.deep_view()),
        argvs.len() == repos.len() + 1,
        argvs[repos.len() as int].deep_view() == sync_argv(),
{
    let mut argvs: Vec<Vec<String>> = Vec::new();
    let mut i: usize = 0;
    while i < repos.len()
        invariant
            i <= repos.len(),
            argvs.len() == i,
            forall|k: int|
                0 <= k < i ==> (#[trigger] argvs[k]).deep_view() == seq![
                    "xbps-install"@,
                    repos[k]@,
                ],
        decreases repos.len() - i,
    {
        let mut argv: Vec<String> = Vec::new();
        argv.push(String::from_str("xbps-install"));
        argv.push(repos[i].clone());
        argvs.push(argv);
        i += 1;
    }
    argvs.push(sync());
    argvs
}

/// The invocation that installs the packages.
pub fn install(packages: Vec<String>) -> (argv: Vec<String>)
    ensures
        argv.deep_view() == install_argv(packages.deep_view()),
{
    let mut packages = packages;
    let mut argv: Vec<String> = Vec::new();
    argv.push(String::from_str("xbps-install"));
    argv.push(String::from_str("-S"));
    argv.append(&mut packages);
    argv
}

/// Each package followed by its development companion.
pub fn devel_packages(packages: &Vec<String>) -> (all: Vec<String>)
    ensures
        all.deep_view() == with_devel(packages.deep_view()),
        all.len() == 2 * packages.len(),
{
    let mut all: Vec<String> = Vec::new();
    let mut i: usize = 0;
    while i < packages.len()
        invariant
            i <= packages.len(),
            all.len() == 2 * i,
            forall|k: int|
                0 <= k < i ==> (#[trigger] all[2 * k])@ == packages[k]@ && all[2 * k + 1]@
                    == packages[k]@ + "-devel"@,
        decreases packages.len() - i,
    {
        let mut devel = packages[i].clone();
        devel.append("-devel");
        all.push(packages[i].clone());
        all.push(devel);
        i += 1;
    }
    assert forall|j: int| 0 <= j < all.len() implies all.deep_view()[j] == with_devel(
        packages.deep_view(),
    )[j] by {
        let k = j / 2;
        assert(all[2 * k]@ == packages[k]@);
    }
    all
}

/// The invocation that installs the packages together with their development
/// companions.
pub fn dev_install(packages: Vec<String>) -> (argv: Vec<String>)
    ensures
        argv.deep_view() == install_argv(with_devel(packages.deep_view())),
{
    install(devel_packages(&packages))
}

/// The invocation that installs the packages over what is there.
pub fn force_install(packages: Vec<String>) -> (argv: Vec<String>)
    ensures
        argv.deep_view() == force_install_argv(packages.deep_view()),
{
    let mut packages = packages;
    let mut argv: Vec<String> = Vec::new();
    argv.push(String::from_str("xbps-install"));
    argv.push(String::from_str("-Sf"));
    argv.append(&mut packages);
    argv
}

} // verus!
