use vpm::arguments::{Args, ColorMode, Command};
use vpm::commands::dispatch::{
    plan, Dispatch, Event, Failure, Progress, Rendering, Verdict, FAILURE_CODE,
};
use vpm::commands::listing::{ParseError, ParseStage};
use vpm::commands::output::ExecutionResult;
use vpm::commands::run;
use vpm::config::{init, Config};

fn list_of(items: &[&str]) -> Vec<String> {
    items.iter().map(|s| s.to_string()).collect()
}

fn begin(command: Command, verbose: bool, euid: u32) -> Progress {
    colored::control::set_override(false);
    let args = Args { command, color: ColorMode::Never, verbose };
    let config = init(&args);
    run(args, config, euid)
}

fn exited(stdout: &str, stderr: &str, status: Option<i32>) -> Event {
    Event::Exited(ExecutionResult {
        stdout: stdout.to_string(),
        stderr: stderr.to_string(),
        status,
    })
}

fn invoke(progress: Progress) -> (Vec<String>, Vec<String>, Dispatch) {
    match progress {
        Progress::Invoke { lines, argv, then } => (lines, argv, then),
        other => panic!("expected an invocation, got {other:?}"),
    }
}

fn exit(progress: Progress) -> (Vec<String>, u8) {
    match progress {
        Progress::Exit { lines, code } => (lines, code),
        other => panic!("expected the end, got {other:?}"),
    }
}

fn fail(progress: Progress) -> Failure {
    match progress {
        Progress::Fail(failure) => failure,
        other => panic!("expected a failure, got {other:?}"),
    }
}

#[test]
fn init_takes_verbosity_from_the_arguments() {
    let args = Args { command: Command::Sync, color: ColorMode::Auto, verbose: true };
    assert_eq!(init(&args), Config { verbose: true });
    let args = Args { command: Command::Sync, color: ColorMode::Always, verbose: false };
    assert_eq!(init(&args), Config { verbose: false });
}

#[test]
fn privileged_commands_fail_for_ordinary_users() {
    let failure = fail(begin(Command::Sync, false, 1000));
    assert_eq!(failure, Failure::PrivilegeDenied);
    assert_eq!(failure.message(), "This operation needs super-user privileges. Exiting.");
    assert_eq!(fail(begin(Command::Install { packages: list_of(&["vim"]) }, false, 1)), Failure::PrivilegeDenied);
}

#[test]
fn queries_run_for_ordinary_users() {
    let (lines, argv, _) = invoke(begin(Command::Info { package: "vim".to_string() }, false, 1000));
    assert_eq!(lines, Vec::<String>::new());
    assert_eq!(argv, list_of(&["xbps-query", "-v", "-R", "vim"]));
}

#[test]
fn external_runs_for_ordinary_users() {
    let (_, argv, _) = invoke(begin(Command::External(list_of(&["remove", "glibc"])), false, 1000));
    assert_eq!(argv, list_of(&["xbps-remove", "glibc"]));
}

#[test]
fn sync_announces_itself_and_reports_its_status() {
    let (lines, argv, then) = invoke(begin(Command::Sync, false, 0));
    assert_eq!(lines, list_of(&["Synchronizing remote repository data"]));
    assert_eq!(argv, list_of(&["xbps-install", "-S"]));
    let (lines, code) = exit(then.advance(exited("done\n", "", Some(0))));
    assert_eq!(lines, list_of(&["done", "Returned with code 0"]));
    assert_eq!(code, 0);
}

#[test]
fn a_status_other_than_zero_becomes_the_exit_code() {
    let (_, _, then) = invoke(begin(Command::Update, false, 0));
    let (lines, code) = exit(then.advance(exited("", "broken\n", Some(17))));
    assert_eq!(lines, list_of(&["[Err] broken", "Returned with code 17"]));
    assert_eq!(code, 17);
}

#[test]
fn a_missing_status_becomes_code_255() {
    let (_, _, then) = invoke(begin(Command::Cleanup, false, 0));
    let (lines, code) = exit(then.advance(exited("", "", None)));
    assert_eq!(lines, list_of(&["Returned with code -1"]));
    assert_eq!(code, 255);
}

#[test]
fn verbose_output_echoes_the_invocation() {
    let (_, _, then) = invoke(begin(Command::Autoremove, true, 0));
    let (lines, _) = exit(then.advance(exited("x\n", "", Some(0))));
    assert_eq!(
        lines,
        list_of(&["[xbps-remove -v -o] x", "[xbps-remove -v -o] Returned with code 0"])
    );
}

#[test]
fn add_repo_goes_on_after_a_status_other_than_zero() {
    let (lines, argv, then) =
        invoke(begin(Command::AddRepo { repos: list_of(&["r1", "r2"]) }, false, 0));
    assert_eq!(lines, list_of(&["Adding repository: \"r1\""]));
    assert_eq!(argv, list_of(&["xbps-install", "r1"]));
    let (lines, argv, then) = invoke(then.advance(exited("", "no such repo\n", Some(2))));
    assert_eq!(
        lines,
        list_of(&["[Err] no such repo", "Returned with code 2", "Adding repository: \"r2\""])
    );
    assert_eq!(argv, list_of(&["xbps-install", "r2"]));
    let (lines, argv, then) = invoke(then.advance(exited("", "", Some(0))));
    assert_eq!(
        lines,
        list_of(&["Returned with code 0", "", "Synchronizing remote repository data"])
    );
    assert_eq!(argv, list_of(&["xbps-install", "-S"]));
    let (lines, code) = exit(then.advance(exited("", "", Some(0))));
    assert_eq!(lines, list_of(&["Returned with code 0"]));
    assert_eq!(code, 0);
}

#[test]
fn add_repo_reports_the_status_of_the_synchronization() {
    let (_, _, then) = invoke(begin(Command::AddRepo { repos: list_of(&["r1"]) }, false, 0));
    let (_, _, then) = invoke(then.advance(exited("", "", Some(0))));
    let (_, code) = exit(then.advance(exited("", "", Some(9))));
    assert_eq!(code, 9);
}

#[test]
fn add_repo_stops_where_an_invocation_cannot_start() {
    let (_, _, then) = invoke(begin(Command::AddRepo { repos: list_of(&["r1", "r2"]) }, false, 0));
    let (_, _, then) = invoke(then.advance(exited("", "", Some(0))));
    let failure = fail(then.advance(Event::SpawnFailed));
    assert_eq!(failure, Failure::SpawnFailed { argv: list_of(&["xbps-install", "r2"]) });
    assert_eq!(failure.message(), "Failed to execute command xbps-install r2");
}

#[test]
fn a_single_step_fails_where_it_cannot_start() {
    let (_, _, then) = invoke(begin(Command::Search { name: "vim".to_string() }, false, 1000));
    assert_eq!(
        fail(then.advance(Event::SpawnFailed)),
        Failure::SpawnFailed { argv: list_of(&["xbps-query", "-v", "-Rs", "vim"]) }
    );
}

#[test]
fn install_announces_the_packages() {
    let (lines, argv, _) =
        invoke(begin(Command::Install { packages: list_of(&["vim", "zsh"]) }, false, 0));
    assert_eq!(lines, list_of(&["Installing vim, zsh"]));
    assert_eq!(argv, list_of(&["xbps-install", "-S", "vim", "zsh"]));
    let (lines, argv, _) =
        invoke(begin(Command::ForceInstall { packages: list_of(&["vim"]) }, false, 0));
    assert_eq!(lines, list_of(&["Force installing vim"]));
    assert_eq!(argv, list_of(&["xbps-install", "-Sf", "vim"]));
}

#[test]
fn dev_install_announces_packages_and_companions() {
    let (lines, argv, _) =
        invoke(begin(Command::DevInstall { packages: list_of(&["a", "b"]) }, false, 0));
    assert_eq!(lines, list_of(&["Installing a, a-devel, b, b-devel"]));
    assert_eq!(argv, list_of(&["xbps-install", "-S", "a", "a-devel", "b", "b-devel"]));
}

#[test]
fn list_repos_reports_the_second_status_after_a_good_first() {
    let (lines, argv, then) = invoke(begin(Command::ListRepos, false, 1000));
    assert_eq!(lines, list_of(&["Configured repositories: "]));
    assert_eq!(argv, list_of(&["xbps-query", "-v", "-L"]));
    let (lines, argv, then) = invoke(then.advance(exited("repo\n", "", Some(0))));
    assert_eq!(
        lines,
        list_of(&["repo", "Returned with code 0", "", "Available sub-repositories"])
    );
    assert_eq!(argv, list_of(&["xbps-query", "-v", "-Rs", "void-repo"]));
    let (lines, code) = exit(then.advance(exited("", "", Some(3))));
    assert_eq!(
        lines,
        list_of(&[
            "Returned with code 3",
            "",
            "Use \"vpm addrepo <repository>\" to add a sub-repository.",
        ])
    );
    assert_eq!(code, 3);
}

#[test]
fn list_repos_reports_the_first_status_that_is_not_zero() {
    let (_, _, then) = invoke(begin(Command::ListRepos, false, 1000));
    let (_, _, then) = invoke(then.advance(exited("", "", Some(5))));
    let (_, code) = exit(then.advance(exited("", "", Some(0))));
    assert_eq!(code, 5);
    let (_, _, then) = invoke(begin(Command::ListRepos, false, 1000));
    let (_, _, then) = invoke(then.advance(exited("", "", None)));
    let (_, code) = exit(then.advance(exited("", "", Some(0))));
    assert_eq!(code, 255);
}

#[test]
fn list_shows_the_packages_and_no_status() {
    let (lines, argv, then) = invoke(begin(Command::List, true, 1000));
    assert_eq!(lines, list_of(&["Installed packages:"]));
    assert_eq!(argv, list_of(&["xbps-query", "-v", "-l"]));
    let (lines, code) = exit(then.advance(exited(
        "ii libfoo-1.2.3 A test library.\nuu bar-2_1 Another.\n",
        "ignored\n",
        Some(0),
    )));
    assert_eq!(
        lines,
        list_of(&[
            "[1]    libfoo (1.2.3) [Installed] - A test library.",
            "[2]    bar (2_1) [Unpacked] - Another.",
        ])
    );
    assert_eq!(code, 0);
}

#[test]
fn list_fails_on_a_line_it_cannot_read() {
    let (_, _, then) = invoke(begin(Command::List, false, 1000));
    let failure = fail(then.advance(exited("ii a-1 one\nzz foo-1.0 desc\n", "", Some(0))));
    assert_eq!(
        failure,
        Failure::Unreadable(ParseError {
            stage: ParseStage::UnknownState,
            line: "zz foo-1.0 desc".to_string(),
        })
    );
    assert_eq!(failure.message(), "Unknown package state: zz foo-1.0 desc");
}

#[test]
fn what_provides_hints_where_xlocate_is_missing() {
    let (lines, argv, then) =
        invoke(begin(Command::WhatProvides { file: "bin/ls".to_string() }, false, 1000));
    assert_eq!(lines, list_of(&["Relaying to xlocate - use xlocate -S to (re-)build cached DB."]));
    assert_eq!(argv, list_of(&["xlocate", "bin/ls"]));
    let (lines, code) = exit(then.advance(Event::SpawnFailed));
    assert_eq!(lines, list_of(&["xlocate not found. Try installing the xtools package."]));
    assert_eq!(code, 255);
}

#[test]
fn what_provides_reports_the_status_of_xlocate() {
    let (_, _, then) =
        invoke(begin(Command::WhatProvides { file: "bin/ls".to_string() }, false, 1000));
    let (lines, code) = exit(then.advance(exited("coreutils\n", "", Some(0))));
    assert_eq!(lines, list_of(&["coreutils", "Returned with code 0"]));
    assert_eq!(code, 0);
}

#[test]
fn the_plan_has_one_step_for_each_invocation() {
    let made = plan(Command::AddRepo { repos: list_of(&["r1", "r2", "r3"]) });
    assert_eq!(made.steps.len(), 4);
    assert_eq!(made.steps[2].argv, list_of(&["xbps-install", "r3"]));
    assert_eq!(made.steps[2].notes, list_of(&["Adding repository: \"r3\""]));
    assert_eq!(made.steps[3].argv, list_of(&["xbps-install", "-S"]));
    assert_eq!(made.verdict, Verdict::Last);
    assert_eq!(made.hint, None);
    assert!(made.closing.is_empty());
    assert!(made.steps.iter().all(|s| s.rendering == Rendering::Annotated));
}

#[test]
fn the_plan_of_list_reads_the_listing() {
    let made = plan(Command::List);
    assert_eq!(made.steps.len(), 1);
    assert_eq!(made.steps[0].rendering, Rendering::Listing);
    let made = plan(Command::ListRepos);
    assert_eq!(made.verdict, Verdict::FirstFailure);
    assert_eq!(made.closing.len(), 2);
}

#[test]
fn failures_leave_with_code_one() {
    assert_eq!(FAILURE_CODE, 1);
}
