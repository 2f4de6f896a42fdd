//! Commands that `xbps-alternatives` carries out.

use crate::text::{join, joined, joined_ends};
use vstd::prelude::*;
use vstd::string::StringExecFns;

verus! {

/// The groups as one argument: their names with a comma between each two.
pub open spec fn group_filter(groups: Seq<Seq<char>>) -> Seq<char> {
    joined(groups, ","@)
}

/// The invocation for the alternatives of a package. The groups follow as one
/// argument behind `-g`; where they make up no text, neither is there.
pub open spec fn alternatives_argv(package: Seq<char>, groups: Seq<Seq<char>>) -> Seq<Seq<char>> {
    if group_filter(groups).len() == 0 {
        seq!["xbps-alternatives"@, "-l"@, package]
    } else {
        seq!["xbps-alternatives"@, "-l"@, package, "-g"@, group_filter(groups)]
    }
}

/// Without groups the invocation ends with the package and holds no `-g`.
/// With groups that make up a text it holds `-g` and, as its last argument,
/// the group names joined by commas: that argument starts with the first
/// group and ends with the last, so no comma leads or trails.
pub proof fn groups_make_one_argument(package: Seq<char>, groups: Seq<Seq<char>>)
    ensures
        groups.len() == 0 ==> alternatives_argv(package, groups) == seq![
            "xbps-alternatives"@,
            "-l"@,
            package,
        ],
        group_filter(groups).len() > 0 ==> {
            let argv = alternatives_argv(package, groups);
            &&& argv.len() == 5
            &&& argv[3] == "-g"@
            &&& argv[4] == joined(groups, ","@)
            &&& groups.first().is_prefix_of(argv[4])
            &&& groups.last().is_suffix_of(argv[4])
        },
{
    if groups.len() > 0 {
        joined_ends(groups, ","@);
    }
}

fn alternatives(package: String, groups: Vec<String>) -> (argv: Vec<String>)
    ensures
        argv.deep_view() == alternatives_argv(package@, groups.deep_view()),
{
    let mut argv: Vec<String> = Vec::new();
    argv.push(String::from_str("xbps-alternatives"));
    argv.push(String::from_str("-l"));
    argv.push(package);
    let filter = join(&groups, ",");
    if !filter.as_str().is_empty() {
        argv.push(String::from_str("-g"));
        argv.push(filter);
    }
    argv
}

/// The invocation that lists the alternatives of `package` in `groups`, or in
/// all groups where none is given.
pub fn list_alternatives(package: String, groups: Vec<String>) -> (argv: Vec<String>)
    ensures
        argv.deep_view() == alternatives_argv(package@, groups.deep_view()),
{
    alternatives(package, groups)
}

/// The invocation that the command for setting alternatives runs. It is the
/// one that lists them: `xbps-alternatives -l` for `package`, in `groups` or
/// in all groups where none is given.
pub fn set_alternatives(package: String, groups: Vec<String>) -> (argv: Vec<String>)
    ensures
        argv.deep_view() == alternatives_argv(package@, groups.deep_view()),
{
    alternatives(package, groups)
}

} // verus!
