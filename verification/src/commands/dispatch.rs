//! Carrying out a command: the steps it takes, and what follows from the
//! outcome of each.
//!
//! Nothing here starts a process. [`run`] and [`Dispatch::advance`] say what
//! is to be printed and which invocation is to be run next; the caller runs
//! it and reports how that went.

use crate::arguments::{Args, Command};
use crate::commands::install::{devel_packages, with_devel};
use crate::commands::listing::{
    is_listing, parse_installed, parsed, render_installed, ParseError, ParseErrorView,
};
use crate::commands::output::{
    exit_code, exit_code_of, is_rendering, wrap_command, ExecutionResult, ResultView,
};
use crate::commands::{translate, translation};
use crate::config::Config;
use crate::text::{copy_texts, join, joined};
use vstd::prelude::*;
use vstd::string::StringExecFns;

verus! {

/// How the output of an invocation is shown.
#[derive(Debug, Clone, Copy, PartialEq, Eq, Structural)]
pub enum Rendering {
    /// Line by line, followed by the exit status.
    Annotated,
    /// Read as the listing of installed packages and shown as a numbered
    /// list.
    Listing,
}

/// Which exit status a command reports as its own.
#[derive(Debug, Clone, Copy, PartialEq, Eq, Structural)]
pub enum Verdict {
    /// That of its last invocation.
    Last,
    /// That of its first invocation that did not exit with zero, or of the
    /// last where all did.
    FirstFailure,
}

/// One invocation of a command, with what is printed before it runs.
#[derive(Debug, PartialEq, Eq)]
pub struct Step {
    pub notes: Vec<String>,
    pub argv: Vec<String>,
    pub rendering: Rendering,
}

/// What a [`Step`] holds, as plain text.
pub struct StepView {
    pub notes: Seq<Seq<char>>,
    pub argv: Seq<Seq<char>>,
    pub rendering: Rendering,
}

impl View for Step {
    type V = StepView;

    open spec fn view(&self) -> StepView {
        StepView {
            notes: self.notes.deep_view(),
            argv: self.argv.deep_view(),
            rendering: self.rendering,
        }
    }
}

impl DeepView for Step {
    type V = StepView;

    open spec fn deep_view(&self) -> StepView {
        self@
    }
}

/// All that carrying out a command takes.
#[derive(Debug, PartialEq, Eq)]
pub struct Plan {
    /// The invocations, in the order in which they run.
    pub steps: Vec<Step>,
    /// What is printed after the last invocation.
    pub closing: Vec<String>,
    /// What is printed where an invocation cannot be started, in place of
    /// failing.
    pub hint: Option<String>,
    pub verdict: Verdict,
}

/// What a [`Plan`] holds, as plain text.
pub struct PlanView {
    pub steps: Seq<StepView>,
    pub closing: Seq<Seq<char>>,
    pub hint: Option<Seq<char>>,
    pub verdict: Verdict,
}

impl View for Plan {
    type V = PlanView;

    open spec fn view(&self) -> PlanView {
        PlanView {
            steps: self.steps.deep_view(),
            closing: self.closing.deep_view(),
            hint: match self.hint {
                Some(hint) => Some(hint@),
                None => None,
            },
            verdict: self.verdict,
        }
    }
}

/// What is printed before the invocation `step` of a command runs.
pub open spec fn notes_of(command: Command, step: int) -> Seq<Seq<char>> {
    match command {
        Command::Sync => seq!["Synchronizing remote repository data"@],
        Command::Update => seq!["Running system update"@],
        Command::ListRepos => if step == 0 {
            seq!["Configured repositories: "@]
        } else {
            seq![""@, "Available sub-repositories"@]
        },
        Command::AddRepo { repos } => if step < repos.len() {
            seq!["Adding repository: \""@ + repos[step]@ + "\""@]
        } else {
            seq![""@, "Synchronizing remote repository data"@]
        },
        Command::List => seq!["Installed packages:"@],
        Command::Install { packages } => seq![
            "Installing "@ + joined(packages.deep_view(), ", "@),
        ],
        Command::DevInstall { packages } => seq![
            "Installing "@ + joined(with_devel(packages.deep_view()), ", "@),
        ],
        Command::ForceInstall { packages } => seq![
            "Force installing "@ + joined(packages.deep_view(), ", "@),
        ],
        Command::WhatProvides { .. } => seq![
            "Relaying to xlocate - use xlocate -S to (re-)build cached DB."@,
        ],
        _ => Seq::empty(),
    }
}

/// What is printed once the last invocation of a command has run.
pub open spec fn closing_of(command: Command) -> Seq<Seq<char>> {
    match command {
        Command::ListRepos => seq![
            ""@,
            "Use \"vpm addrepo <repository>\" to add a sub-repository."@,
        ],
        _ => Seq::empty(),
    }
}

/// What is printed where the tool of a command cannot be started, for the
/// commands that do not fail on that.
pub open spec fn hint_of(command: Command) -> Option<Seq<char>> {
    match command {
        Command::WhatProvides { .. } => Some(
            "xlocate not found. Try installing the xtools package."@,
        ),
        _ => None,
    }
}

/// How the output of the invocations of a command is shown.
pub open spec fn rendering_of(command: Command) -> Rendering {
    if command is List {
        Rendering::Listing
    } else {
        Rendering::Annotated
    }
}

/// Which exit status a command reports.
pub open spec fn verdict_of(command: Command) -> Verdict {
    if command is ListRepos {
        Verdict::FirstFailure
    } else {
        Verdict::Last
    }
}

/// All that carrying out a command takes: one step for each invocation of
/// its translation.
pub open spec fn plan_of(command: Command) -> PlanView {
    PlanView {
        steps: Seq::new(
            translation(command).len(),
            |i: int|
                StepView {
                    notes: notes_of(command, i),
                    argv: translation(command)[i],
                    rendering: rendering_of(command),
                },
        ),
        closing: closing_of(command),
        hint: hint_of(command),
        verdict: verdict_of(command),
    }
}

fn note(text: &str) -> (notes: Vec<String>)
    ensures
        notes.deep_view() == seq![text@],
{
    let mut notes: Vec<String> = Vec::new();
    notes.push(String::from_str(text));
    notes
}

fn note_after_blank(text: &str) -> (notes: Vec<String>)
    ensures
        notes.deep_view() == seq![""@, text@],
{
    let mut notes: Vec<String> = Vec::new();
    notes.push(String::from_str(""));
    notes.push(String::from_str(text));
    notes
}

fn note_of_list(intro: &str, names: &Vec<String>) -> (notes: Vec<String>)
    ensures
        notes.deep_view() == seq![intro@ + joined(names.deep_view(), ", "@)],
{
    let mut text = String::from_str(intro);
    text.append(join(names, ", ").as_str());
    let mut notes: Vec<String> = Vec::new();
    notes.push(text);
    notes
}

fn only(notes: Vec<String>) -> (all: Vec<Vec<String>>)
    ensures
        all.len() == 1,
        all[0].deep_view() == notes.deep_view(),
{
    let mut all: Vec<Vec<String>> = Vec::new();
    all.push(notes);
    all
}

/// What is printed before each invocation of `command`.
fn announcements(command: &Command) -> (all: Vec<Vec<String>>)
    requires
        command.valid(),
    ensures
        all.len() == translation(*command).len(),
        forall|i: int|
            0 <= i < all.len() ==> (#[trigger] all[i]).deep_view() == notes_of(*command, i),
{
    match command {
        Command::Sync => only(note("Synchronizing remote repository data")),
        Command::Update => only(note("Running system update")),
        Command::ListRepos => {
            let mut all: Vec<Vec<String>> = Vec::new();
            all.push(note("Configured repositories: "));
            all.push(note_after_blank("Available sub-repositories"));
            all
        },
        Command::AddRepo { repos } => {
            let mut all: Vec<Vec<String>> = Vec::new();
            let mut i: usize = 0;
            while i < repos.len()
                invariant
                    i <= repos.len(),
                    all.len() == i,
                    *command matches Command::AddRepo { repos: held } && held == repos,
                    forall|k: int|
                        0 <= k < i ==> (#[trigger] all[k]).deep_view() == notes_of(*command, k),
                decreases repos.len() - i,
            {
                let mut text = String::from_str("Adding repository: \"");
                text.append(repos[i].as_str());
                text.append("\"");
                let mut notes: Vec<String> = Vec::new();
                notes.push(text);
                all.push(notes);
                i += 1;
            }
            all.push(note_after_blank("Synchronizing remote repository data"));
            all
        },
        Command::List => only(note("Installed packages:")),
        Command::Install { packages } => only(note_of_list("Installing ", packages)),
        Command::DevInstall { packages } => {
            let all = devel_packages(packages);
            only(note_of_list("Installing ", &all))
        },
        Command::ForceInstall { packages } => only(note_of_list("Force installing ", packages)),
        Command::WhatProvides { .. } => only(
            note("Relaying to xlocate - use xlocate -S to (re-)build cached DB."),
        ),
        _ => only(Vec::new()),
    }
}

/// All that carrying out `command` takes.
pub fn plan(command: Command) -> (plan: Plan)
    requires
        command.valid(),
    ensures
        plan@ == plan_of(command),
{
    let rendering = match &command {
        Command::List => Rendering::Listing,
        _ => Rendering::Annotated,
    };
    let verdict = match &command {
        Command::ListRepos => Verdict::FirstFailure,
        _ => Verdict::Last,
    };
    let closing = match &command {
        Command::ListRepos => note_after_blank(
            "Use \"vpm addrepo <repository>\" to add a sub-repository.",
        ),
        _ => Vec::new(),
    };
    let hint = match &command {
        Command::WhatProvides { .. } => Some(
            String::from_str("xlocate not found. Try installing the xtools package."),
        ),
        _ => None,
    };
    let mut notes = announcements(&command);
    let mut argvs = translate(command);
    let ghost count = argvs.len();
    let ghost all_notes = notes@;
    let ghost all_argvs = argvs@;
    let mut steps: Vec<Step> = Vec::new();
    while argvs.len() > 0
        invariant
            notes.len() == argvs.len(),
            steps.len() + argvs.len() == count,
            all_notes.len() == count,
            all_argvs.len() == count,
            notes@ == all_notes.skip(steps.len() as int),
            argvs@ == all_argvs.skip(steps.len() as int),
            forall|k: int|
                0 <= k < steps.len() ==> (#[trigger] steps[k])@ == (StepView {
                    notes: all_notes[k].deep_view(),
                    argv: all_argvs[k].deep_view(),
                    rendering,
                }),
        decreases argvs.len(),
    {
        let before = notes.remove(0);
        let argv = argvs.remove(0);
        steps.push(Step { notes: before, argv, rendering });
    }
    let plan = Plan { steps, closing, hint, verdict };
    assert(plan@.steps == plan_of(command).steps);
    assert(plan@.closing == plan_of(command).closing);
    plan
}

/// The exit code of a run that failed before it could report a status.
pub const FAILURE_CODE: u8 = 1;

/// Why a command could not be carried out.
#[derive(Debug, PartialEq, Eq)]
pub enum Failure {
    /// The command needs the super-user, and the caller is not.
    PrivilegeDenied,
    /// The invocation could not be started.
    SpawnFailed { argv: Vec<String> },
    /// The listing of installed packages could not be read.
    Unreadable(ParseError),
}

/// What a [`Failure`] holds, as plain text.
pub enum FailureView {
    PrivilegeDenied,
    SpawnFailed { argv: Seq<Seq<char>> },
    Unreadable(ParseErrorView),
}

impl View for Failure {
    type V = FailureView;

    open spec fn view(&self) -> FailureView {
        match *self {
            Failure::PrivilegeDenied => FailureView::PrivilegeDenied,
            Failure::SpawnFailed { argv } => FailureView::SpawnFailed { argv: argv.deep_view() },
            Failure::Unreadable(e) => FailureView::Unreadable(e@),
        }
    }
}

impl Failure {
    /// The one line that tells the user of the failure.
    pub open spec fn message_of(self) -> Seq<char> {
        match self {
            Failure::PrivilegeDenied => "This operation needs super-user privileges. Exiting."@,
            Failure::SpawnFailed { argv } => "Failed to execute command "@ + joined(
                argv.deep_view(),
                " "@,
            ),
            Failure::Unreadable(e) => e.message_of(),
        }
    }

    /// The one line that tells the user of the failure.
    pub fn message(&self) -> (out: String)
        ensures
            out@ == self.message_of(),
    {
        match self {
            Failure::PrivilegeDenied => String::from_str(
                "This operation needs super-user privileges. Exiting.",
            ),
            Failure::SpawnFailed { argv } => {
                let mut out = String::from_str("Failed to execute command ");
                out.append(join(argv, " ").as_str());
                out
            },
            Failure::Unreadable(e) => e.message(),
        }
    }
}

/// How running an invocation went.
#[derive(Debug, PartialEq, Eq)]
pub enum Event {
    /// It ran and ended, with whatever status.
    Exited(ExecutionResult),
    /// It could not be started.
    SpawnFailed,
}

/// What an [`Event`] holds, as plain text.
pub enum EventView {
    Exited(ResultView),
    SpawnFailed,
}

impl View for Event {
    type V = EventView;

    open spec fn view(&self) -> EventView {
        match *self {
            Event::Exited(result) => EventView::Exited(result@),
            Event::SpawnFailed => EventView::SpawnFailed,
        }
    }
}

/// A command on its way: its plan, and the exit statuses of the invocations
/// that have run. One invocation is always under way.
#[derive(Debug)]
pub struct Dispatch {
    plan: Plan,
    statuses: Vec<Option<i32>>,
    verbose: bool,
}

/// What a [`Dispatch`] holds, as plain values.
pub struct DispatchView {
    pub plan: PlanView,
    pub statuses: Seq<Option<i32>>,
    pub verbose: bool,
}

impl View for Dispatch {
    type V = DispatchView;

    closed spec fn view(&self) -> DispatchView {
        DispatchView { plan: self.plan@, statuses: self.statuses@, verbose: self.verbose }
    }
}

/// What the caller is to do next.
#[derive(Debug)]
pub enum Progress {
    /// Print the lines, run the invocation, and hand its outcome to
    /// [`Dispatch::advance`].
    Invoke { lines: Vec<String>, argv: Vec<String>, then: Dispatch },
    /// Print the lines and leave with the code.
    Exit { lines: Vec<String>, code: u8 },
    /// Report the failure and leave with [`FAILURE_CODE`].
    Fail(Failure),
}

/// What a [`Progress`] holds, as plain values.
pub enum ProgressView {
    Invoke { lines: Seq<Seq<char>>, argv: Seq<Seq<char>>, then: DispatchView },
    Exit { lines: Seq<Seq<char>>, code: u8 },
    Fail(FailureView),
}

impl View for Progress {
    type V = ProgressView;

    open spec fn view(&self) -> ProgressView {
        match *self {
            Progress::Invoke { lines, argv, then } => ProgressView::Invoke {
                lines: lines.deep_view(),
                argv: argv.deep_view(),
                then: then@,
            },
            Progress::Exit { lines, code } => ProgressView::Exit { lines: lines.deep_view(), code },
            Progress::Fail(failure) => ProgressView::Fail(failure@),
        }
    }
}

/// The first status that is not zero, or the last where all are zero.
pub open spec fn first_failure(statuses: Seq<Option<i32>>) -> Option<i32>
    decreases statuses.len(),
{
    if statuses.len() == 0 {
        None
    } else if statuses.len() == 1 || statuses[0] != Some(0i32) {
        statuses[0]
    } else {
        first_failure(statuses.drop_first())
    }
}

/// The status that a command reports, given those of its invocations.
pub open spec fn reported(verdict: Verdict, statuses: Seq<Option<i32>>) -> Option<i32> {
    match verdict {
        Verdict::Last => statuses.last(),
        Verdict::FirstFailure => first_failure(statuses),
    }
}

/// Whether `progress` is how a command starts for a caller with the
/// effective user id `euid`: a command that needs the super-user fails for
/// anyone else, before anything is printed or run; otherwise the notes of the
/// first step are printed and its invocation is run.
pub open spec fn starts(command: Command, verbose: bool, euid: u32, progress: ProgressView) -> bool {
    if command.privileged() && euid != 0 {
        progress == ProgressView::Fail(FailureView::PrivilegeDenied)
    } else {
        let plan = plan_of(command);
        progress == (ProgressView::Invoke {
            lines: plan.steps[0].notes,
            argv: plan.steps[0].argv,
            then: DispatchView { plan, statuses: Seq::empty(), verbose },
        })
    }
}

/// Whether `progress` is what follows once an invocation has ended with
/// `status` and `shown` is what its output is shown as: the next step where
/// there is one, whatever the status, and otherwise the end, with the code of
/// the status that the command reports.
pub open spec fn goes_on(
    state: DispatchView,
    status: Option<i32>,
    shown: Seq<Seq<char>>,
    progress: ProgressView,
) -> bool {
    let statuses = state.statuses.push(status);
    if statuses.len() < state.plan.steps.len() {
        let next = state.plan.steps[statuses.len() as int];
        progress == (ProgressView::Invoke {
            lines: shown + next.notes,
            argv: next.argv,
            then: DispatchView { plan: state.plan, statuses, verbose: state.verbose },
        })
    } else {
        progress == (ProgressView::Exit {
            lines: shown + state.plan.closing,
            code: exit_code_of(reported(state.plan.verdict, statuses)),
        })
    }
}

/// Whether `progress` is what follows from `event` in `state`.
///
/// An invocation that cannot be started ends the command: with the plan's
/// hint and the code for an unknown status where the plan has a hint, as a
/// failure otherwise. An invocation that ran has its output shown, and the
/// command goes on; only a listing that cannot be read fails it, and then
/// nothing of the listing is shown.
pub open spec fn follows(state: DispatchView, event: EventView, progress: ProgressView) -> bool {
    let step = state.plan.steps[state.statuses.len() as int];
    match event {
        EventView::SpawnFailed => match state.plan.hint {
            Some(hint) => progress == (ProgressView::Exit {
                lines: seq![hint],
                code: exit_code_of(None),
            }),
            None => progress == ProgressView::Fail(FailureView::SpawnFailed { argv: step.argv }),
        },
        EventView::Exited(result) => match step.rendering {
            Rendering::Annotated => exists|shown: Seq<Seq<char>>|
                {
                    &&& #[trigger] is_rendering(shown, step.argv, result, state.verbose)
                    &&& goes_on(state, result.status, shown, progress)
                },
            Rendering::Listing => match parsed(result.stdout) {
                Ok(packages) => exists|shown: Seq<Seq<char>>|
                    {
                        &&& #[trigger] is_listing(shown, packages)
                        &&& goes_on(state, result.status, shown, progress)
                    },
                Err(e) => progress == ProgressView::Fail(FailureView::Unreadable(e)),
            },
        },
    }
}

/// The status that a command reports.
fn report(verdict: Verdict, statuses: &Vec<Option<i32>>) -> (status: Option<i32>)
    requires
        statuses.len() > 0,
    ensures
        status == reported(verdict, statuses@),
{
    match verdict {
        Verdict::Last => statuses[statuses.len() - 1],
        Verdict::FirstFailure => {
            let mut i: usize = 0;
            assert(statuses@.skip(0) == statuses@);
            while i + 1 < statuses.len() && is_zero(statuses[i])
                invariant
                    i < statuses.len(),
                    first_failure(statuses@) == first_failure(statuses@.skip(i as int)),
                decreases statuses.len() - i,
            {
                assert(statuses@.skip(i as int).drop_first() == statuses@.skip(i + 1));
                i += 1;
            }
            statuses[i]
        },
    }
}

fn is_zero(status: Option<i32>) -> (zero: bool)
    ensures
        zero == (status == Some(0i32)),
{
    match status {
        Some(code) => code == 0,
        None => false,
    }
}

/// Starts carrying out the command of `args` for a caller with the effective
/// user id `euid`.
///
/// A command that needs the super-user fails for anyone else. Otherwise the
/// result says what to print and which invocation to run first.
pub fn run(args: Args, config: Config, euid: u32) -> (progress: Progress)
    requires
        args.command.valid(),
    ensures
        starts(args.command, config.verbose, euid, progress@),
{
    if args.command.root_needed() && euid != 0 {
        return Progress::Fail(Failure::PrivilegeDenied);
    }
    let ghost command = args.command;
    let plan = plan(args.command);
    proof {
        crate::commands::tool_comes_first(command);
        assert(plan@.steps.len() == plan.steps.len());
    }
    let lines = copy_texts(&plan.steps[0].notes);
    let argv = copy_texts(&plan.steps[0].argv);
    let then = Dispatch { plan, statuses: Vec::new(), verbose: config.verbose };
    Progress::Invoke { lines, argv, then }
}

impl Dispatch {
    #[verifier::type_invariant]
    spec fn under_way(self) -> bool {
        self.statuses.len() < self.plan.steps.len()
    }

    /// What follows from the outcome of the invocation that was under way.
    ///
    /// Where the invocation ran, its output is shown and the command goes on
    /// to its next step, or ends with the code of the status it reports: a
    /// status other than zero stops nothing. Where it could not be started,
    /// the command ends there.
    pub fn advance(self, event: Event) -> (progress: Progress)
        ensures
            follows(self@, event@, progress@),
    {
        proof {
            use_type_invariant(&self);
        }
        let ghost state = self@;
        let Dispatch { plan, statuses, verbose } = self;
        let Plan { steps, closing, hint, verdict } = plan;
        let at = statuses.len();
        match event {
            Event::SpawnFailed => match hint {
                Some(hint) => {
                    let ghost text = hint@;
                    let mut lines: Vec<String> = Vec::new();
                    lines.push(hint);
                    assert(lines.deep_view() == seq![text]);
                    Progress::Exit { lines, code: exit_code(None) }
                },
                None => Progress::Fail(Failure::SpawnFailed { argv: copy_texts(&steps[at].argv) }),
            },
            Event::Exited(result) => {
                let shown = match steps[at].rendering {
                    Rendering::Annotated => wrap_command(&steps[at].argv, &result, verbose),
                    Rendering::Listing => match parse_installed(result.stdout.as_str()) {
                        Ok(packages) => render_installed(&packages),
                        Err(e) => { return Progress::Fail(Failure::Unreadable(e)); },
                    },
                };
                let ghost seen = shown.deep_view();
                let ghost step = state.plan.steps[at as int];
                assert(step.rendering is Listing ==> parsed(result@.stdout) is Ok && is_listing(
                    seen,
                    parsed(result@.stdout)->Ok_0,
                ));
                let mut statuses = statuses;
                statuses.push(result.status);
                let mut lines = shown;
                if statuses.len() < steps.len() {
                    let mut notes = copy_texts(&steps[statuses.len()].notes);
                    let argv = copy_texts(&steps[statuses.len()].argv);
                    let ghost next = state.plan.steps[statuses.len() as int];
                    lines.append(&mut notes);
                    assert(lines.deep_view() == seen + next.notes);
                    let then = Dispatch {
                        plan: Plan { steps, closing, hint, verdict },
                        statuses,
                        verbose,
                    };
                    let progress = Progress::Invoke { lines, argv, then };
                    assert(goes_on(state, result.status, seen, progress@));
                    progress
                } else {
                    let mut closing = closing;
                    lines.append(&mut closing);
                    assert(lines.deep_view() == seen + state.plan.closing);
                    let code = exit_code(report(verdict, &statuses));
                    let progress = Progress::Exit { lines, code };
                    assert(goes_on(state, result.status, seen, progress@));
                    progress
                }
            },
        }
    }
}

/// An exit status stops nothing: while steps remain, an invocation that ran
/// and was shown line by line is followed by the next step, whatever its
/// status was.
pub proof fn status_stops_nothing(state: DispatchView, result: ResultView, progress: ProgressView)
    requires
        state.statuses.len() + 1 < state.plan.steps.len(),
        state.plan.steps[state.statuses.len() as int].rendering is Annotated,
        follows(state, EventView::Exited(result), progress),
    ensures
        progress is Invoke,
        progress->argv == state.plan.steps[state.statuses.len() as int + 1].argv,
        progress->then.statuses == state.statuses.push(result.status),
        progress->then.plan == state.plan,
{
}

/// An invocation that cannot be started is the last of its command: no
/// further invocation follows it.
pub proof fn spawn_failure_stops(state: DispatchView, progress: ProgressView)
    requires
        follows(state, EventView::SpawnFailed, progress),
    ensures
        !(progress is Invoke),
        state.plan.hint is None ==> progress is Fail,
        state.plan.hint is Some ==> progress == (ProgressView::Exit {
            lines: seq![state.plan.hint->Some_0],
            code: 255,
        }),
{
}

/// A command that reports its last invocation ends with the code of that
/// invocation's status, whatever the earlier ones were.
pub proof fn last_status_is_reported(
    state: DispatchView,
    result: ResultView,
    progress: ProgressView,
)
    requires
        state.statuses.len() + 1 == state.plan.steps.len(),
        state.plan.verdict is Last,
        state.plan.steps[state.statuses.len() as int].rendering is Annotated,
        follows(state, EventView::Exited(result), progress),
    ensures
        progress is Exit,
        progress->code == exit_code_of(result.status),
{
}

} // verus!
