//! The commands and what they make XBPS do: which of them need the
//! super-user, and the invocations that each is carried out by.

pub mod alternatives;
pub mod dispatch;
pub mod install;
pub mod listing;
pub mod output;
pub mod query;
pub mod reconfigure;
pub mod remove;

pub use crate::commands::dispatch::run;
pub use crate::commands::output::wrap_command;

use crate::arguments::Command;
use crate::commands::alternatives::{alternatives_argv, list_alternatives, set_alternatives};
use crate::commands::install::{
    add_repo, add_repo_argvs, dev_install, force_install, force_install_argv, install,
    install_argv, sync, sync_argv, update, update_argv, with_devel,
};
use crate::commands::query::{
    dependencies, dependencies_argv, file_list, file_list_argv, info, info_argv, list, list_argv,
    list_repos, list_repos_argvs, reverse, reverse_argv, search, search_argv, search_file,
    search_file_argv, what_provides, what_provides_argv,
};
use crate::commands::reconfigure::{reconfigure, reconfigure_argv};
use crate::commands::remove::{
    autoremove, autoremove_argv, cleanup, cleanup_argv, remove, remove_argv, remove_recursive,
    remove_recursive_argv,
};
use vstd::prelude::*;
use vstd::string::StringExecFns;

verus! {

impl Command {
    /// Whether the command changes the packages of the system and so needs
    /// the super-user. A command that only asks does not, and neither does an
    /// external subcommand: the tool it goes to sees to that itself.
    pub open spec fn privileged(self) -> bool {
        ||| self is Sync
        ||| self is Update
        ||| self is AddRepo
        ||| self is Install
        ||| self is DevInstall
        ||| self is SetAlternative
        ||| self is Reconfigure
        ||| self is ForceInstall
        ||| self is Remove
        ||| self is RemoveRecursive
        ||| self is Cleanup
        ||| self is Autoremove
    }

    /// Whether the command needs the super-user.
    pub fn root_needed(&self) -> (needed: bool)
        ensures
            needed == self.privileged(),
    {
        match self {
            Command::Sync => true,
            Command::Update => true,
            Command::ListRepos => false,
            Command::AddRepo { .. } => true,
            Command::Info { .. } => false,
            Command::FileList { .. } => false,
            Command::Dependencies { .. } => false,
            Command::Reverse { .. } => false,
            Command::Search { .. } => false,
            Command::SearchFile { .. } => false,
            Command::List => false,
            Command::Install { .. } => true,
            Command::DevInstall { .. } => true,
            Command::ListAlternatives { .. } => false,
            Command::SetAlternative { .. } => true,
            Command::Reconfigure { .. } => true,
            Command::ForceInstall { .. } => true,
            Command::Remove { .. } => true,
            Command::RemoveRecursive { .. } => true,
            Command::Cleanup => true,
            Command::Autoremove => true,
            Command::WhatProvides { .. } => false,
            Command::External(_) => false,
        }
    }
}

/// The invocation of an external subcommand: the XBPS tool named after the
/// subcommand, with the arguments that follow the name.
pub open spec fn external_argv(args: Seq<Seq<char>>) -> Seq<Seq<char>> {
    seq!["xbps-"@ + args[0]] + args.skip(1)
}

/// The invocation of the external subcommand `args[0]` with the arguments
/// behind it.
pub fn external(args: Vec<String>) -> (argv: Vec<String>)
    requires
        args.len() > 0,
    ensures
        argv.deep_view() == external_argv(args.deep_view()),
{
    let mut args = args;
    let name = args.remove(0);
    let mut tool = String::from_str("xbps-");
    tool.append(name.as_str());
    let mut argv: Vec<String> = Vec::new();
    argv.push(tool);
    argv.append(&mut args);
    argv
}

/// The invocations that carry out a command, in the order in which they run.
pub open spec fn translation(command: Command) -> Seq<Seq<Seq<char>>> {
    match command {
        Command::Sync => seq![sync_argv()],
        Command::Update => seq![update_argv()],
        Command::ListRepos => list_repos_argvs(),
        Command::AddRepo { repos } => add_repo_argvs(repos.deep_view()),
        Command::Info { package } => seq![info_argv(package@)],
        Command::FileList { package } => seq![file_list_argv(package@)],
        Command::Dependencies { package } => seq![dependencies_argv(package@)],
        Command::Reverse { package } => seq![reverse_argv(package@)],
        Command::Search { name } => seq![search_argv(name@)],
        Command::SearchFile { file } => seq![search_file_argv(file@)],
        Command::List => seq![list_argv()],
        Command::Install { packages } => seq![install_argv(packages.deep_view())],
        Command::DevInstall { packages } => seq![install_argv(with_devel(packages.deep_view()))],
        Command::ListAlternatives { package, groups } => seq![
            alternatives_argv(package@, groups.deep_view()),
        ],
        Command::SetAlternative { package, groups } => seq![
            alternatives_argv(package@, groups.deep_view()),
        ],
        Command::Reconfigure { package } => seq![reconfigure_argv(package@)],
        Command::ForceInstall { packages } => seq![force_install_argv(packages.deep_view())],
        Command::Remove { packages } => seq![remove_argv(packages.deep_view())],
        Command::RemoveRecursive { packages } => seq![
            remove_recursive_argv(packages.deep_view()),
        ],
        Command::Cleanup => seq![cleanup_argv()],
        Command::Autoremove => seq![autoremove_argv()],
        Command::WhatProvides { file } => seq![what_provides_argv(file@)],
        Command::External(args) => seq![external_argv(args.deep_view())],
    }
}

/// A single invocation as the whole of a translation.
fn only(argv: Vec<String>) -> (argvs: Vec<Vec<String>>)
    ensures
        argvs.deep_view() == seq![argv.deep_view()],
{
    let mut argvs: Vec<Vec<String>> = Vec::new();
    argvs.push(argv);
    argvs
}

/// The invocations that carry out `command`, in the order in which they run.
pub fn translate(command: Command) -> (argvs: Vec<Vec<String>>)
    requires
        command.valid(),
    ensures
        argvs.deep_view() == translation(command),
{
    match command {
        Command::Sync => only(sync()),
        Command::Update => only(update()),
        Command::ListRepos => list_repos(),
        Command::AddRepo { repos } => add_repo(repos),
        Command::Info { package } => only(info(package)),
        Command::FileList { package } => only(file_list(package)),
        Command::Dependencies { package } => only(dependencies(package)),
        Command::Reverse { package } => only(reverse(package)),
        Command::Search { name } => only(search(name)),
        Command::SearchFile { file } => only(search_file(file)),
        Command::List => only(list()),
        Command::Install { packages } => only(install(packages)),
        Command::DevInstall { packages } => only(dev_install(packages)),
        Command::ListAlternatives { package, groups } => only(list_alternatives(package, groups)),
        Command::SetAlternative { package, groups } => only(set_alternatives(package, groups)),
        Command::Reconfigure { package } => only(reconfigure(package)),
        Command::ForceInstall { packages } => only(force_install(packages)),
        Command::Remove { packages } => only(remove(packages)),
        Command::RemoveRecursive { packages } => only(remove_recursive(packages)),
        Command::Cleanup => only(cleanup()),
        Command::Autoremove => only(autoremove()),
        Command::WhatProvides { file } => only(what_provides(file)),
        Command::External(args) => only(external(args)),
    }
}

/// The tool that carries out a command.
pub open spec fn tool(command: Command) -> Seq<char> {
    match command {
        Command::Sync
        | Command::Update
        | Command::AddRepo { .. }
        | Command::Install { .. }
        | Command::DevInstall { .. }
        | Command::ForceInstall { .. } => "xbps-install"@,
        Command::ListRepos
        | Command::Info { .. }
        | Command::FileList { .. }
        | Command::Dependencies { .. }
        | Command::Reverse { .. }
        | Command::Search { .. }
        | Command::SearchFile { .. }
        | Command::List => "xbps-query"@,
        Command::ListAlternatives { .. } | Command::SetAlternative { .. } => "xbps-alternatives"@,
        Command::Reconfigure { .. } => "xbps-reconfigure"@,
        Command::Remove { .. }
        | Command::RemoveRecursive { .. }
        | Command::Cleanup
        | Command::Autoremove => "xbps-remove"@,
        Command::WhatProvides { .. } => "xlocate"@,
        Command::External(args) => "xbps-"@ + args[0]@,
    }
}

/// The names that a command hands on: its packages, repositories, search
/// term or file, or the arguments of an external subcommand, in the order in
/// which it holds them.
pub open spec fn payload(command: Command) -> Seq<Seq<char>> {
    match command {
        Command::AddRepo { repos } => repos.deep_view(),
        Command::Info { package }
        | Command::FileList { package }
        | Command::Dependencies { package }
        | Command::Reverse { package }
        | Command::Reconfigure { package }
        | Command::ListAlternatives { package, .. }
        | Command::SetAlternative { package, .. } => seq![package@],
        Command::Search { name } => seq![name@],
        Command::SearchFile { file } | Command::WhatProvides { file } => seq![file@],
        Command::Install { packages }
        | Command::DevInstall { packages }
        | Command::ForceInstall { packages }
        | Command::Remove { packages }
        | Command::RemoveRecursive { packages } => packages.deep_view(),
        Command::External(args) => args.deep_view().skip(1),
        _ => Seq::empty(),
    }
}

/// Whether `places` says where each name stands: `places[k]` gives the
/// invocation and the argument in it that is `names[k]`, never the tool's own
/// name, and a later name stands in a later place.
pub open spec fn stand_at(
    names: Seq<Seq<char>>,
    argvs: Seq<Seq<Seq<char>>>,
    places: Seq<(int, int)>,
) -> bool {
    &&& places.len() == names.len()
    &&& forall|k: int|
        0 <= k < names.len() ==> {
            &&& 0 <= (#[trigger] places[k]).0 < argvs.len()
            &&& 1 <= places[k].1 < argvs[places[k].0].len()
            &&& argvs[places[k].0][places[k].1] == names[k]
        }
    &&& forall|k: int, l: int|
        0 <= k < l < names.len() ==> {
            ||| (#[trigger] places[k]).0 < (#[trigger] places[l]).0
            ||| places[k].0 == places[l].0 && places[k].1 < places[l].1
        }
}

/// Whether the names stand among the arguments of the invocations, each
/// unchanged as an argument of its own, and in their order.
pub open spec fn in_order(names: Seq<Seq<char>>, argvs: Seq<Seq<Seq<char>>>) -> bool {
    exists|places: Seq<(int, int)>| stand_at(names, argvs, places)
}

/// Every command is carried out by at least one invocation, and each of its
/// invocations starts with the name of the command's tool.
pub proof fn tool_comes_first(command: Command)
    requires
        command.valid(),
    ensures
        translation(command).len() >= 1,
        forall|i: int|
            0 <= i < translation(command).len() ==> {
                &&& (#[trigger] translation(command)[i]).len() >= 1
                &&& translation(command)[i][0] == tool(command)
            },
{
}

/// The names that a command holds reach the tool unchanged and in their
/// order. The one exception is the file of a search among the installed
/// packages, which is handed on inside a pattern.
pub proof fn payload_in_order(command: Command)
    requires
        command.valid(),
        !(command is SearchFile),
    ensures
        in_order(payload(command), translation(command)),
{
    let names = payload(command);
    let argvs = translation(command);
    let places: Seq<(int, int)> = match command {
        Command::AddRepo { .. } => Seq::new(names.len(), |k: int| (k, 1int)),
        Command::Info { .. } | Command::Search { .. } => seq![(0int, 3int)],
        Command::FileList { .. } | Command::Dependencies { .. } | Command::Reverse { .. } => seq![
            (0int, 4int),
        ],
        Command::Reconfigure { .. }
        | Command::ListAlternatives { .. }
        | Command::SetAlternative { .. } => seq![(0int, 2int)],
        Command::WhatProvides { .. } => seq![(0int, 1int)],
        Command::Install { .. } | Command::ForceInstall { .. } | Command::Remove { .. } => Seq::new(
            names.len(),
            |k: int| (0int, 2 + k),
        ),
        Command::RemoveRecursive { .. } => Seq::new(names.len(), |k: int| (0int, 3 + k)),
        Command::DevInstall { .. } => Seq::new(names.len(), |k: int| (0int, 2 + 2 * k)),
        Command::External(_) => Seq::new(names.len(), |k: int| (0int, 1 + k)),
        _ => Seq::empty(),
    };
    assert(stand_at(names, argvs, places));
}

} // verus!
