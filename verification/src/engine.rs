//! The run of one process, as a machine of phases.
//!
//! The embedding program performs the actions that a step asks for and hands
//! back what happened as the next event. Which actions are asked for, in which
//! order, and with which exit code the process ends is decided here.

use crate::commands::{
    dispatch_failure, hook_handles, parse_log_level, parsed_log_level, preexecute_hooks,
    run_command, target, unknown_log_level,
};
use crate::config::{overridden, Config, ConfigView, Overrides, OverridesView};
use crate::invocation::{Invocation, InvocationView};
use crate::level::LevelFilter;
use crate::registry::{same_text, CommandRegistry, DescriptorView, COMPLETIONS};
use vstd::prelude::*;
use vstd::string::StringExecFns;

verus! {

/// An error that asks for an exit code and for silence: whoever raised it has
/// told the user why.
#[derive(Clone, Copy, Debug, PartialEq, Eq, Structural)]
pub struct ExitSignal {
    pub code: i32,
}

/// An error with the chain of its causes, outermost first.
#[derive(Clone, Debug, PartialEq, Eq)]
pub struct Failure {
    pub message: String,
    pub causes: Vec<String>,
}

/// The mathematical value of a [`Failure`].
pub struct FailureView {
    pub message: Seq<char>,
    pub causes: Seq<Seq<char>>,
}

impl View for Failure {
    type V = FailureView;

    open spec fn view(&self) -> FailureView {
        FailureView { message: self.message@, causes: self.causes.deep_view() }
    }
}

/// How a subcommand, or the wrapped call, ended.
#[derive(Clone, Debug, PartialEq, Eq)]
pub enum Outcome {
    Success,
    SilentExit(ExitSignal),
    Failure(Failure),
}

/// The mathematical value of an [`Outcome`].
pub enum OutcomeView {
    Success,
    SilentExit(i32),
    Failure(FailureView),
}

impl View for Outcome {
    type V = OutcomeView;

    open spec fn view(&self) -> OutcomeView {
        match self {
            Outcome::Success => OutcomeView::Success,
            Outcome::SilentExit(signal) => OutcomeView::SilentExit(signal.code),
            Outcome::Failure(failure) => OutcomeView::Failure(failure@),
        }
    }
}

/// What the embedding program is asked to do.
#[derive(Clone, Debug, PartialEq, Eq)]
pub enum Action {
    /// Prepare the printing of backtraces.
    InitBacktrace,
    /// Load the variables of a `.env` file into the environment.
    LoadDotenv,
    /// Set the most detailed level that is logged.
    SetMaxLevel(LevelFilter),
    /// Install the logger. Doing so twice is a defect.
    BindLogger,
    /// Remove the marker of a wrapped call from the environment.
    ClearMarker,
    /// Stand in for the wrapped build tool, and report how that ended.
    RunWrappedCall,
    /// Parse the command line, and report the result.
    ParseArguments,
    /// Load the persisted configuration, and report it.
    LoadConfig,
    /// Switch the quiet mode of the process on or off.
    SetQuietMode(bool),
    /// Make the configuration the one of the process. Doing so twice is a
    /// defect.
    BindConfig(Config),
    /// Print the completion script for the shell on the command line.
    PrintCompletions,
    /// Run the subcommand at the position, and report how it ended.
    RunCommand(usize),
    /// Check for a newer version and tell the user.
    RunUpdateNagger,
    /// Print a line on the diagnostic stream.
    Diagnostic(String),
    /// Dispose the pool of connections.
    DisposePool,
    /// End the process with the code.
    Exit(i32),
}

/// The mathematical value of an [`Action`].
pub enum ActionView {
    InitBacktrace,
    LoadDotenv,
    SetMaxLevel(LevelFilter),
    BindLogger,
    ClearMarker,
    RunWrappedCall,
    ParseArguments,
    LoadConfig,
    SetQuietMode(bool),
    BindConfig(ConfigView),
    PrintCompletions,
    RunCommand(int),
    RunUpdateNagger,
    Diagnostic(Seq<char>),
    DisposePool,
    Exit(i32),
}

impl View for Action {
    type V = ActionView;

    open spec fn view(&self) -> ActionView {
        match self {
            Action::InitBacktrace => ActionView::InitBacktrace,
            Action::LoadDotenv => ActionView::LoadDotenv,
            Action::SetMaxLevel(level) => ActionView::SetMaxLevel(*level),
            Action::BindLogger => ActionView::BindLogger,
            Action::ClearMarker => ActionView::ClearMarker,
            Action::RunWrappedCall => ActionView::RunWrappedCall,
            Action::ParseArguments => ActionView::ParseArguments,
            Action::LoadConfig => ActionView::LoadConfig,
            Action::SetQuietMode(quiet) => ActionView::SetQuietMode(*quiet),
            Action::BindConfig(config) => ActionView::BindConfig(config@),
            Action::PrintCompletions => ActionView::PrintCompletions,
            Action::RunCommand(index) => ActionView::RunCommand(*index as int),
            Action::RunUpdateNagger => ActionView::RunUpdateNagger,
            Action::Diagnostic(line) => ActionView::Diagnostic(line@),
            Action::DisposePool => ActionView::DisposePool,
            Action::Exit(code) => ActionView::Exit(*code),
        }
    }
}

/// What happened outside, reported to the machine.
#[derive(Clone, Debug, PartialEq, Eq)]
pub enum Event {
    /// The process started. `hook_capable` says whether the platform has the
    /// hook that runs before parsing; `marker` is the value of the marker of
    /// a wrapped call in the environment.
    Started { hook_capable: bool, marker: Option<String> },
    /// The wrapped call ended.
    WrappedCall(Outcome),
    /// The command line was parsed.
    Parsed(Invocation),
    /// The persisted configuration was loaded.
    ConfigLoaded(Config),
    /// The persisted configuration could not be loaded.
    ConfigFailed(Failure),
    /// The subcommand ended.
    Executed(Outcome),
}

/// The mathematical value of an [`Event`].
pub enum EventView {
    Started { hook_capable: bool, marker: Option<Seq<char>> },
    WrappedCall(OutcomeView),
    Parsed(InvocationView),
    ConfigLoaded(ConfigView),
    ConfigFailed(FailureView),
    Executed(OutcomeView),
}

impl View for Event {
    type V = EventView;

    open spec fn view(&self) -> EventView {
        match self {
            Event::Started { hook_capable, marker } => EventView::Started {
                hook_capable: *hook_capable,
                marker: marker.deep_view(),
            },
            Event::WrappedCall(outcome) => EventView::WrappedCall(outcome@),
            Event::Parsed(invocation) => EventView::Parsed(invocation@),
            Event::ConfigLoaded(config) => EventView::ConfigLoaded(config@),
            Event::ConfigFailed(failure) => EventView::ConfigFailed(failure@),
            Event::Executed(outcome) => EventView::Executed(outcome@),
        }
    }
}

/// Where the run of the process stands.
#[derive(Clone, Debug, PartialEq, Eq)]
pub enum Phase {
    /// Nothing has happened yet.
    Start,
    /// The wrapped call is running in place of the normal flow.
    Wrapping,
    /// The command line is being parsed.
    Parsing,
    /// The persisted configuration is being loaded.
    Loading { overrides: Overrides, log_level: Option<LevelFilter>, subcommand: Option<String> },
    /// The subcommand is running. `allow_failure` holds where the flag was given
    /// or the bound configuration allows failures.
    Running { naggable: bool, allow_failure: bool },
    /// The process has been asked to exit.
    Finished,
}

/// The mathematical value of a [`Phase`].
pub enum PhaseView {
    Start,
    Wrapping,
    Parsing,
    Loading {
        overrides: OverridesView,
        log_level: Option<LevelFilter>,
        subcommand: Option<Seq<char>>,
    },
    Running { naggable: bool, allow_failure: bool },
    Finished,
}

impl View for Phase {
    type V = PhaseView;

    open spec fn view(&self) -> PhaseView {
        match self {
            Phase::Start => PhaseView::Start,
            Phase::Wrapping => PhaseView::Wrapping,
            Phase::Parsing => PhaseView::Parsing,
            Phase::Loading { overrides, log_level, subcommand } => PhaseView::Loading {
                overrides: overrides@,
                log_level: *log_level,
                subcommand: subcommand.deep_view(),
            },
            Phase::Running { naggable, allow_failure } => PhaseView::Running {
                naggable: *naggable,
                allow_failure: *allow_failure,
            },
            Phase::Finished => PhaseView::Finished,
        }
    }
}

/// One step of the machine: the phase it leads to, and the actions it asks
/// for, in their order.
#[derive(Clone, Debug, PartialEq, Eq)]
pub struct Step {
    pub phase: Phase,
    pub actions: Vec<Action>,
}

/// The mathematical value of a [`Step`].
pub struct StepView {
    pub phase: PhaseView,
    pub actions: Seq<ActionView>,
}

/// The mathematical values of a list of actions.
pub open spec fn actions_view(actions: Vec<Action>) -> Seq<ActionView> {
    actions@.map_values(|action: Action| action@)
}

impl View for Step {
    type V = StepView;

    open spec fn view(&self) -> StepView {
        StepView { phase: self.phase@, actions: actions_view(self.actions) }
    }
}

/// The notice that follows the report of a failure that is turned into
/// success.
pub const SUPPRESSION_NOTICE: &'static str =
    "\nCommand failed, however, \"GSOC2_ALLOW_FAILURE\" variable or \"allow-failure\" flag was set. Exiting with 0 exit code.";

/// The lines that report an error: the error itself, then each of its
/// causes.
pub open spec fn error_lines(failure: FailureView) -> Seq<Seq<char>> {
    seq!["error: "@ + failure.message] + failure.causes.map_values(
        |cause: Seq<char>| "  caused by: "@ + cause,
    )
}

/// The actions that print the lines on the diagnostic stream.
pub open spec fn said(lines: Seq<Seq<char>>) -> Seq<ActionView> {
    lines.map_values(|line: Seq<char>| ActionView::Diagnostic(line))
}

/// The end of every run: the pool is disposed, then the process exits.
pub open spec fn shutdown(code: i32) -> Seq<ActionView> {
    seq![ActionView::DisposePool, ActionView::Exit(code)]
}

/// The end of a run that fails before any command is chosen.
pub open spec fn refused(message: Seq<char>) -> Seq<ActionView> {
    said(seq!["error: "@ + message]) + shutdown(1)
}

/// The exit code for an outcome: zero for success, the code of an exit
/// signal, and for any other failure one, or zero where failures are allowed.
pub open spec fn exit_code(outcome: OutcomeView, allow_failure: bool) -> i32 {
    match outcome {
        OutcomeView::Success => 0,
        OutcomeView::SilentExit(code) => code,
        OutcomeView::Failure(_) => if allow_failure {
            0
        } else {
            1
        },
    }
}

/// The lines printed for an outcome: none for success and for an exit
/// signal; for any other failure the report of the error, followed, where
/// failures are allowed, by the notice that this one is suppressed.
pub open spec fn report(outcome: OutcomeView, allow_failure: bool) -> Seq<Seq<char>> {
    match outcome {
        OutcomeView::Failure(failure) => error_lines(failure) + if allow_failure {
            seq![SUPPRESSION_NOTICE@]
        } else {
            Seq::empty()
        },
        _ => Seq::empty(),
    }
}

/// The update check, where the command is followed by it.
pub open spec fn nagging(naggable: bool) -> Seq<ActionView> {
    if naggable {
        seq![ActionView::RunUpdateNagger]
    } else {
        Seq::empty()
    }
}

/// The actions after a command has ended: its report, the update check
/// where the command is followed by it, and the shutdown with the exit code.
pub open spec fn concluded(outcome: OutcomeView, naggable: bool, allow_failure: bool) -> Seq<
    ActionView,
> {
    said(report(outcome, allow_failure)) + nagging(naggable) + shutdown(
        exit_code(outcome, allow_failure),
    )
}

/// The configuration that is bound: the persisted one with the overrides of
/// the command line, and with the log level where the command line gives one.
/// The quiet mode and the allow-failure setting in it are the persisted ones.
pub open spec fn resolved(
    base: ConfigView,
    overrides: OverridesView,
    log_level: Option<LevelFilter>,
) -> ConfigView {
    ConfigView {
        log_level: match log_level {
            Some(level) => Some(level),
            None => base.log_level,
        },
        ..overridden(base, overrides)
    }
}

/// The step taken once the configuration is bound: the completion script
/// where `completions` is selected, else the one registered command with the
/// selected name, else a refusal. `allow_failure` says whether a failure of
/// the command is to end in exit code zero.
pub open spec fn dispatched(
    table: Seq<DescriptorView>,
    subcommand: Option<Seq<char>>,
    allow_failure: bool,
) -> StepView {
    if subcommand == Some(COMPLETIONS@) {
        StepView {
            phase: PhaseView::Finished,
            actions: seq![ActionView::PrintCompletions] + shutdown(0),
        }
    } else {
        match target(table, subcommand) {
            Some(index) => StepView {
                phase: PhaseView::Running { naggable: table[index].naggable, allow_failure },
                actions: seq![ActionView::RunCommand(index)],
            },
            None => StepView {
                phase: PhaseView::Finished,
                actions: refused(dispatch_failure(subcommand)),
            },
        }
    }
}

/// The step that an event causes in a phase. An event that the phase does
/// not wait for changes nothing.
pub open spec fn next(phase: PhaseView, event: EventView, table: Seq<DescriptorView>) -> StepView {
    match (phase, event) {
        (PhaseView::Start, EventView::Started { hook_capable, marker }) => if hook_handles(
            hook_capable,
            marker,
        ) {
            StepView {
                phase: PhaseView::Wrapping,
                actions: seq![ActionView::ClearMarker, ActionView::RunWrappedCall],
            }
        } else {
            StepView { phase: PhaseView::Parsing, actions: seq![ActionView::ParseArguments] }
        },
        (PhaseView::Wrapping, EventView::WrappedCall(outcome)) => StepView {
            phase: PhaseView::Finished,
            actions: concluded(outcome, false, false),
        },
        (PhaseView::Parsing, EventView::Parsed(invocation)) => match parsed_log_level(
            invocation.log_level,
        ) {
            Err(token) => StepView {
                phase: PhaseView::Finished,
                actions: refused(unknown_log_level(token)),
            },
            Ok(log_level) => StepView {
                phase: PhaseView::Loading {
                    overrides: invocation.overrides,
                    log_level,
                    subcommand: invocation.subcommand,
                },
                actions: match log_level {
                    Some(level) => seq![ActionView::SetMaxLevel(level), ActionView::LoadConfig],
                    None => seq![ActionView::LoadConfig],
                },
            },
        },
        (PhaseView::Loading { .. }, EventView::ConfigFailed(failure)) => StepView {
            phase: PhaseView::Finished,
            actions: said(error_lines(failure)) + shutdown(1),
        },
        (
            PhaseView::Loading { overrides, log_level, subcommand },
            EventView::ConfigLoaded(base),
        ) => {
            let config = resolved(base, overrides, log_level);
            let chosen = dispatched(
                table,
                subcommand,
                config.allow_failure || overrides.allow_failure,
            );
            StepView {
                phase: chosen.phase,
                actions: seq![
                    ActionView::SetQuietMode(overrides.quiet),
                    ActionView::BindConfig(config),
                ] + chosen.actions,
            }
        },
        (PhaseView::Running { naggable, allow_failure }, EventView::Executed(outcome)) => StepView {
            phase: PhaseView::Finished,
            actions: concluded(outcome, naggable, allow_failure),
        },
        _ => StepView { phase, actions: Seq::empty() },
    }
}

/// Adds one action.
fn emit(actions: &mut Vec<Action>, action: Action)
    ensures
        actions_view(*final(actions)) == actions_view(*old(actions)).push(action@),
{
    actions.push(action);
}

/// Adds the printing of each line.
fn say(actions: &mut Vec<Action>, lines: Vec<String>)
    ensures
        actions_view(*final(actions)) == actions_view(*old(actions)) + said(lines.deep_view()),
{
    let mut i: usize = 0;
    while i < lines.len()
        invariant
            i <= lines.len(),
            actions_view(*actions) == actions_view(*old(actions)) + said(lines.deep_view()).take(
                i as int,
            ),
        decreases lines.len() - i,
    {
        emit(actions, Action::Diagnostic(lines[i].clone()));
        i += 1;
    }
}

/// Adds the shutdown with the exit code.
fn shut_down(actions: &mut Vec<Action>, code: i32)
    ensures
        actions_view(*final(actions)) == actions_view(*old(actions)) + shutdown(code),
{
    emit(actions, Action::DisposePool);
    emit(actions, Action::Exit(code));
}

/// The lines that report an error: the error itself, then each of its
/// causes.
pub fn error_report(failure: &Failure) -> (lines: Vec<String>)
    ensures
        lines.deep_view() == error_lines(failure@),
{
    let mut lines: Vec<String> = Vec::new();
    lines.push("error: ".to_owned().concat(failure.message.as_str()));
    let ghost head = seq!["error: "@ + failure@.message];
    let ghost tail = failure@.causes.map_values(|cause: Seq<char>| "  caused by: "@ + cause);
    let mut i: usize = 0;
    while i < failure.causes.len()
        invariant
            i <= failure.causes.len(),
            head == seq!["error: "@ + failure@.message],
            tail == failure@.causes.map_values(|cause: Seq<char>| "  caused by: "@ + cause),
            lines.deep_view() == head + tail.take(i as int),
        decreases failure.causes.len() - i,
    {
        let ghost before = lines.deep_view();
        let line = "  caused by: ".to_owned().concat(failure.causes[i].as_str());
        lines.push(line);
        assert(lines.deep_view() =~= before.push(tail[i as int]));
        i += 1;
    }
    lines
}

/// The actions that report a failure before any command is chosen, and end
/// the process with exit code one.
fn refuse(message: String) -> (actions: Vec<Action>)
    ensures
        actions_view(actions) == refused(message@),
{
    let mut actions: Vec<Action> = Vec::new();
    let line = "error: ".to_owned().concat(message.as_str());
    emit(&mut actions, Action::Diagnostic(line));
    shut_down(&mut actions, 1);
    actions
}

/// The actions after a command, or the wrapped call, has ended: the report
/// of a failure, the update check where the command is followed by it, and
/// the shutdown with the exit code.
pub fn conclude(outcome: Outcome, naggable: bool, allow_failure: bool) -> (actions: Vec<Action>)
    ensures
        actions_view(actions) == concluded(outcome@, naggable, allow_failure),
{
    let mut actions: Vec<Action> = Vec::new();
    let code: i32 = match outcome {
        Outcome::Success => 0,
        Outcome::SilentExit(signal) => signal.code,
        Outcome::Failure(failure) => {
            let mut lines = error_report(&failure);
            if allow_failure {
                lines.push(SUPPRESSION_NOTICE.to_owned());
            }
            say(&mut actions, lines);
            if allow_failure {
                0
            } else {
                1
            }
        },
    };
    if naggable {
        emit(&mut actions, Action::RunUpdateNagger);
    }
    shut_down(&mut actions, code);
    actions
}

/// Chooses what runs once the configuration is bound.
fn dispatch(registry: &CommandRegistry, subcommand: &Option<String>, allow_failure: bool) -> (step:
    Step)
    ensures
        step@ == dispatched(registry@, subcommand.deep_view(), allow_failure),
{
    let completions = match subcommand {
        Some(name) => same_text(name.as_str(), COMPLETIONS),
        None => false,
    };
    let mut actions: Vec<Action> = Vec::new();
    if completions {
        emit(&mut actions, Action::PrintCompletions);
        shut_down(&mut actions, 0);
        assert(actions_view(actions) =~= seq![ActionView::PrintCompletions] + shutdown(0));
        return Step { phase: Phase::Finished, actions };
    }
    match run_command(registry, subcommand) {
        Ok(index) => {
            let naggable = registry.get(index).naggable;
            emit(&mut actions, Action::RunCommand(index));
            assert(actions_view(actions) =~= seq![ActionView::RunCommand(index as int)]);
            Step { phase: Phase::Running { naggable, allow_failure }, actions }
        },
        Err(error) => Step { phase: Phase::Finished, actions: refuse(error.message()) },
    }
}

/// The first step of every run: the machine in its first phase, and the
/// preparations of the process. Logging starts at the `Debug` level.
pub fn setup() -> (step: Step)
    ensures
        step@ == (StepView {
            phase: PhaseView::Start,
            actions: seq![
                ActionView::InitBacktrace,
                ActionView::LoadDotenv,
                ActionView::SetMaxLevel(LevelFilter::Debug),
                ActionView::BindLogger,
            ],
        }),
{
    let mut actions: Vec<Action> = Vec::new();
    emit(&mut actions, Action::InitBacktrace);
    emit(&mut actions, Action::LoadDotenv);
    emit(&mut actions, Action::SetMaxLevel(LevelFilter::Debug));
    emit(&mut actions, Action::BindLogger);
    assert(actions_view(actions) =~= seq![
        ActionView::InitBacktrace,
        ActionView::LoadDotenv,
        ActionView::SetMaxLevel(LevelFilter::Debug),
        ActionView::BindLogger,
    ]);
    Step { phase: Phase::Start, actions }
}

/// Takes the step that the event causes in the phase.
pub fn execute(phase: Phase, event: Event, registry: &CommandRegistry) -> (step: Step)
    ensures
        step@ == next(phase@, event@, registry@),
{
    let mut actions: Vec<Action> = Vec::new();
    assert(actions_view(actions) =~= Seq::<ActionView>::empty());
    match (phase, event) {
        (Phase::Start, Event::Started { hook_capable, marker }) => {
            if preexecute_hooks(hook_capable, &marker) {
                emit(&mut actions, Action::ClearMarker);
                emit(&mut actions, Action::RunWrappedCall);
                assert(actions_view(actions) =~= next(phase@, event@, registry@).actions);
                Step { phase: Phase::Wrapping, actions }
            } else {
                emit(&mut actions, Action::ParseArguments);
                assert(actions_view(actions) =~= next(phase@, event@, registry@).actions);
                Step { phase: Phase::Parsing, actions }
            }
        },
        (Phase::Wrapping, Event::WrappedCall(outcome)) => Step {
            phase: Phase::Finished,
            actions: conclude(outcome, false, false),
        },
        (Phase::Parsing, Event::Parsed(invocation)) => match parse_log_level(
            &invocation.log_level,
        ) {
            Err(error) => Step { phase: Phase::Finished, actions: refuse(error.message()) },
            Ok(log_level) => {
                if let Some(level) = log_level {
                    emit(&mut actions, Action::SetMaxLevel(level));
                }
                emit(&mut actions, Action::LoadConfig);
                assert(actions_view(actions) =~= next(phase@, event@, registry@).actions);
                Step {
                    phase: Phase::Loading {
                        overrides: invocation.overrides,
                        log_level,
                        subcommand: invocation.subcommand,
                    },
                    actions,
                }
            },
        },
        (Phase::Loading { .. }, Event::ConfigFailed(failure)) => {
            say(&mut actions, error_report(&failure));
            shut_down(&mut actions, 1);
            Step { phase: Phase::Finished, actions }
        },
        (
            Phase::Loading { overrides, log_level, subcommand },
            Event::ConfigLoaded(base),
        ) => {
            let mut config = base;
            config.apply(&overrides);
            if let Some(level) = log_level {
                config.set_log_level(level);
            }
            let allow_failure = config.allow_failure || overrides.allow_failure;
            let chosen = dispatch(registry, &subcommand, allow_failure);
            emit(&mut actions, Action::SetQuietMode(overrides.quiet));
            emit(&mut actions, Action::BindConfig(config));
            let ghost bound = actions_view(actions);
            let Step { phase: then, actions: mut rest } = chosen;
            actions.append(&mut rest);
            assert(actions_view(actions) =~= bound + chosen@.actions);
            assert(bound =~= seq![
                ActionView::SetQuietMode(overrides@.quiet),
                ActionView::BindConfig(config@),
            ]);
            Step { phase: then, actions }
        },
        (Phase::Running { naggable, allow_failure }, Event::Executed(outcome)) => Step {
            phase: Phase::Finished,
            actions: conclude(outcome, naggable, allow_failure),
        },
        (phase, _) => Step { phase, actions },
    }
}

} // verus!
