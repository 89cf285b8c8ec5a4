//! The `uninstall` subcommand: its arguments, and the decisions of its run.
//!
//! Removing the executable, asking the user and finding out how the tool
//! was installed are done by the embedding program. It reports each result
//! as an event and performs the actions that the step asks for.

use crate::engine::{ExitSignal, Outcome, OutcomeView};
use crate::parser::{
    arg_action, arg_help, arg_long, arg_new, command_about, command_arg, command_model, new_arg,
    ArgAction, ArgModel, CommandModel,
};
use vstd::prelude::*;
use vstd::string::StringExecFns;

verus! {

/// The description of the subcommand in the help.
pub const ABOUT: &'static str = "Uninstall the gsoc2-cli executable.";

pub const CONFIRM_HELP: &'static str = "Skip uninstall confirmation prompt.";

/// The environment variable that makes the subcommand remove nothing.
pub const INTEGRATION_TEST_VARIABLE: &'static str = "GSOC2_INTEGRATION_TEST";

/// The question put to the user before anything is removed.
pub const QUESTION: &'static str = "Do you really want to uninstall gsoc2-cli?";

/// The flag that skips the question.
pub open spec fn confirm_arg() -> ArgModel {
    ArgModel {
        long: Some("confirm"@),
        help: Some(CONFIRM_HELP@),
        action: Some(ArgAction::SetTrue),
        ..new_arg("confirm"@)
    }
}

/// How the tool was installed, and on what.
#[derive(Clone, Copy, Debug, PartialEq, Eq, Structural)]
pub struct Origin {
    /// The installation is managed by homebrew.
    pub homebrew: bool,
    /// The installation is managed by npm or yarn.
    pub npm: bool,
    /// The platform is Windows.
    pub windows: bool,
}

/// Whether the help leaves the subcommand out: it does wherever the
/// subcommand cannot remove the executable itself.
pub open spec fn hidden_for(origin: Origin) -> bool {
    origin.windows || origin.homebrew || origin.npm
}

/// Whether the help leaves the subcommand out.
pub fn is_hidden(origin: Origin) -> (hidden: bool)
    ensures
        hidden == hidden_for(origin),
{
    origin.windows || origin.homebrew || origin.npm
}

/// The subcommand as built, and whether the help is to leave it out. The
/// embedding program marks the command so.
pub struct BuiltCommand {
    pub command: clap::Command,
    pub hidden: bool,
}

/// Adds the description and the `--confirm` flag to the command, and says
/// whether the help is to leave the command out.
pub fn make_command(command: clap::Command, origin: Origin) -> (built: BuiltCommand)
    ensures
        command_model(built.command) == (CommandModel {
            about: Some(ABOUT@),
            args: command_model(command).args.push(confirm_arg()),
            ..command_model(command)
        }),
        built.hidden == hidden_for(origin),
{
    let confirm = arg_help(
        arg_action(arg_long(arg_new("confirm"), "confirm"), ArgAction::SetTrue),
        CONFIRM_HELP,
    );
    BuiltCommand {
        command: command_arg(command_about(command, ABOUT), confirm),
        hidden: is_hidden(origin),
    }
}

/// What is known when the subcommand starts.
#[derive(Clone, Debug, PartialEq, Eq)]
pub struct Installation {
    pub origin: Origin,
    /// Whether [`INTEGRATION_TEST_VARIABLE`] is set.
    pub integration_test: bool,
    /// Whether `--confirm` was given.
    pub confirm: bool,
    /// The path of the running executable.
    pub exe: String,
}

/// The mathematical value of an [`Installation`].
pub struct InstallationView {
    pub origin: Origin,
    pub integration_test: bool,
    pub confirm: bool,
    pub exe: Seq<char>,
}

impl View for Installation {
    type V = InstallationView;

    open spec fn view(&self) -> InstallationView {
        InstallationView {
            origin: self.origin,
            integration_test: self.integration_test,
            confirm: self.confirm,
            exe: self.exe@,
        }
    }
}

/// What happened outside, reported to the subcommand.
#[derive(Clone, Debug, PartialEq, Eq)]
pub enum Event {
    /// The subcommand started.
    Started(Installation),
    /// The user answered the question.
    Answered(bool),
    /// It was found out whether the executable can be written.
    Writable(bool),
    /// The executable was removed.
    Removed,
}

/// The mathematical value of an [`Event`].
pub enum EventView {
    Started(InstallationView),
    Answered(bool),
    Writable(bool),
    Removed,
}

impl View for Event {
    type V = EventView;

    open spec fn view(&self) -> EventView {
        match self {
            Event::Started(installation) => EventView::Started(installation@),
            Event::Answered(yes) => EventView::Answered(*yes),
            Event::Writable(yes) => EventView::Writable(*yes),
            Event::Removed => EventView::Removed,
        }
    }
}

/// What the embedding program is asked to do.
#[derive(Clone, Debug, PartialEq, Eq)]
pub enum Action {
    /// Print a line on the standard output.
    Print(String),
    /// Print a shell command for the user to run, after a dimmed prompt sign.
    PrintCommand(String),
    /// Ask the user the question, and report the answer.
    Ask(String),
    /// Find out whether the file can be written, and report it.
    CheckWritable(String),
    /// Remove the file, and report it.
    RemoveFile(String),
    /// Remove the file with the rights of the administrator, and report it.
    RemoveFileElevated(String),
    /// End the subcommand with the outcome.
    Finish(Outcome),
}

/// The mathematical value of an [`Action`].
pub enum ActionView {
    Print(Seq<char>),
    PrintCommand(Seq<char>),
    Ask(Seq<char>),
    CheckWritable(Seq<char>),
    RemoveFile(Seq<char>),
    RemoveFileElevated(Seq<char>),
    Finish(OutcomeView),
}

impl View for Action {
    type V = ActionView;

    open spec fn view(&self) -> ActionView {
        match self {
            Action::Print(line) => ActionView::Print(line@),
            Action::PrintCommand(command) => ActionView::PrintCommand(command@),
            Action::Ask(question) => ActionView::Ask(question@),
            Action::CheckWritable(path) => ActionView::CheckWritable(path@),
            Action::RemoveFile(path) => ActionView::RemoveFile(path@),
            Action::RemoveFileElevated(path) => ActionView::RemoveFileElevated(path@),
            Action::Finish(outcome) => ActionView::Finish(outcome@),
        }
    }
}

/// Where the run of the subcommand stands.
#[derive(Clone, Debug, PartialEq, Eq)]
pub enum Phase {
    /// Nothing has happened yet.
    Start,
    /// The user is being asked.
    Asking { exe: String },
    /// It is being found out whether the executable can be written.
    Checking { exe: String },
    /// The executable is being removed.
    Removing,
    /// The subcommand has ended.
    Finished,
}

/// The mathematical value of a [`Phase`].
pub enum PhaseView {
    Start,
    Asking { exe: Seq<char> },
    Checking { exe: Seq<char> },
    Removing,
    Finished,
}

impl View for Phase {
    type V = PhaseView;

    open spec fn view(&self) -> PhaseView {
        match self {
            Phase::Start => PhaseView::Start,
            Phase::Asking { exe } => PhaseView::Asking { exe: exe@ },
            Phase::Checking { exe } => PhaseView::Checking { exe: exe@ },
            Phase::Removing => PhaseView::Removing,
            Phase::Finished => PhaseView::Finished,
        }
    }
}

/// One step of the subcommand: the phase it leads to, and the actions it
/// asks for, in their order.
#[derive(Clone, Debug, PartialEq, Eq)]
pub struct Step {
    pub phase: Phase,
    pub actions: Vec<Action>,
}

/// The mathematical value of a [`Step`].
pub struct StepView {
    pub phase: PhaseView,
    pub actions: Seq<ActionView>,
}

/// The mathematical values of a list of actions.
pub open spec fn actions_view(actions: Vec<Action>) -> Seq<ActionView> {
    actions@.map_values(|action: Action| action@)
}

impl View for Step {
    type V = StepView;

    open spec fn view(&self) -> StepView {
        StepView { phase: self.phase@, actions: actions_view(self.actions) }
    }
}

/// The end of a subcommand that leaves the removal to the package manager
/// or to the user: it has said why, so it asks for exit code one and silence.
pub open spec fn declined() -> ActionView {
    ActionView::Finish(OutcomeView::SilentExit(1))
}

/// The first step. A managed installation and Windows are told how to
/// uninstall, in that order of precedence; a test run removes nothing; else
/// the user is asked, unless `--confirm` was given.
pub open spec fn started(installation: InstallationView) -> StepView {
    if installation.origin.homebrew {
        StepView {
            phase: PhaseView::Finished,
            actions: seq![
                ActionView::Print("This installation of gsoc2-cli is managed through homebrew"@),
                ActionView::Print("Please use homebrew to uninstall gsoc2-cli"@),
                ActionView::Print(""@),
                ActionView::PrintCommand("brew uninstall gsoc2-cli"@),
                declined(),
            ],
        }
    } else if installation.origin.npm {
        StepView {
            phase: PhaseView::Finished,
            actions: seq![
                ActionView::Print("This installation of gsoc2-cli is managed through npm/yarn"@),
                ActionView::Print(
                    "Please use npm/yarn to uninstall gsoc2-cli, using one of the following commands:"@,
                ),
                ActionView::Print("  yarn remove @gsoc2/cli"@),
                ActionView::Print("  yarn global remove @gsoc2/cli"@),
                ActionView::Print("  npm uninstall @gsoc2/cli"@),
                ActionView::Print("  npm uninstall --global @gsoc2/cli"@),
                declined(),
            ],
        }
    } else if installation.origin.windows {
        StepView {
            phase: PhaseView::Finished,
            actions: seq![
                ActionView::Print("Cannot uninstall on Windows :("@),
                ActionView::Print(""@),
                ActionView::Print("Delete this file yourself: "@ + installation.exe),
                declined(),
            ],
        }
    } else if installation.integration_test {
        StepView {
            phase: PhaseView::Finished,
            actions: seq![
                ActionView::Print("Running in integration tests mode. Skipping execution."@),
                ActionView::Finish(OutcomeView::Success),
            ],
        }
    } else if installation.confirm {
        StepView {
            phase: PhaseView::Checking { exe: installation.exe },
            actions: seq![ActionView::CheckWritable(installation.exe)],
        }
    } else {
        StepView {
            phase: PhaseView::Asking { exe: installation.exe },
            actions: seq![ActionView::Ask(QUESTION@)],
        }
    }
}

/// The step that an event causes in a phase. An event that the phase does
/// not wait for changes nothing.
pub open spec fn next(phase: PhaseView, event: EventView) -> StepView {
    match (phase, event) {
        (PhaseView::Start, EventView::Started(installation)) => started(installation),
        (PhaseView::Asking { exe }, EventView::Answered(yes)) => if yes {
            StepView {
                phase: PhaseView::Checking { exe },
                actions: seq![ActionView::CheckWritable(exe)],
            }
        } else {
            StepView {
                phase: PhaseView::Finished,
                actions: seq![
                    ActionView::Print("Aborted!"@),
                    ActionView::Finish(OutcomeView::Success),
                ],
            }
        },
        (PhaseView::Checking { exe }, EventView::Writable(yes)) => StepView {
            phase: PhaseView::Removing,
            actions: if yes {
                seq![ActionView::RemoveFile(exe)]
            } else {
                seq![
                    ActionView::Print("Need to sudo to uninstall "@ + exe),
                    ActionView::RemoveFileElevated(exe),
                ]
            },
        },
        (PhaseView::Removing, EventView::Removed) => StepView {
            phase: PhaseView::Finished,
            actions: seq![
                ActionView::Print("Uninstalled!"@),
                ActionView::Finish(OutcomeView::Success),
            ],
        },
        _ => StepView { phase, actions: Seq::empty() },
    }
}

/// Adds one action.
fn emit(actions: &mut Vec<Action>, action: Action)
    ensures
        actions_view(*final(actions)) == actions_view(*old(actions)).push(action@),
{
    actions.push(action);
}

/// Adds the printing of a line.
fn print(actions: &mut Vec<Action>, line: &str)
    ensures
        actions_view(*final(actions)) == actions_view(*old(actions)).push(
            ActionView::Print(line@),
        ),
{
    emit(actions, Action::Print(line.to_owned()));
}

/// Takes the first step of the subcommand.
fn start(installation: Installation) -> (step: Step)
    ensures
        step@ == started(installation@),
{
    let mut actions: Vec<Action> = Vec::new();
    let declined = Action::Finish(Outcome::SilentExit(ExitSignal { code: 1 }));
    if installation.origin.homebrew {
        print(&mut actions, "This installation of gsoc2-cli is managed through homebrew");
        print(&mut actions, "Please use homebrew to uninstall gsoc2-cli");
        print(&mut actions, "");
        emit(&mut actions, Action::PrintCommand("brew uninstall gsoc2-cli".to_owned()));
        emit(&mut actions, declined);
        assert(actions_view(actions) =~= started(installation@).actions);
        Step { phase: Phase::Finished, actions }
    } else if installation.origin.npm {
        print(&mut actions, "This installation of gsoc2-cli is managed through npm/yarn");
        print(
            &mut actions,
            "Please use npm/yarn to uninstall gsoc2-cli, using one of the following commands:",
        );
        print(&mut actions, "  yarn remove @gsoc2/cli");
        print(&mut actions, "  yarn global remove @gsoc2/cli");
        print(&mut actions, "  npm uninstall @gsoc2/cli");
        print(&mut actions, "  npm uninstall --global @gsoc2/cli");
        emit(&mut actions, declined);
        assert(actions_view(actions) =~= started(installation@).actions);
        Step { phase: Phase::Finished, actions }
    } else if installation.origin.windows {
        print(&mut actions, "Cannot uninstall on Windows :(");
        print(&mut actions, "");
        let line = "Delete this file yourself: ".to_owned().concat(installation.exe.as_str());
        emit(&mut actions, Action::Print(line));
        emit(&mut actions, declined);
        assert(actions_view(actions) =~= started(installation@).actions);
        Step { phase: Phase::Finished, actions }
    } else if installation.integration_test {
        print(&mut actions, "Running in integration tests mode. Skipping execution.");
        emit(&mut actions, Action::Finish(Outcome::Success));
        assert(actions_view(actions) =~= started(installation@).actions);
        Step { phase: Phase::Finished, actions }
    } else if installation.confirm {
        emit(&mut actions, Action::CheckWritable(installation.exe.clone()));
        assert(actions_view(actions) =~= started(installation@).actions);
        Step { phase: Phase::Checking { exe: installation.exe }, actions }
    } else {
        emit(&mut actions, Action::Ask(QUESTION.to_owned()));
        assert(actions_view(actions) =~= started(installation@).actions);
        Step { phase: Phase::Asking { exe: installation.exe }, actions }
    }
}

/// Takes the step that the event causes in the phase.
pub fn execute(phase: Phase, event: Event) -> (step: Step)
    ensures
        step@ == next(phase@, event@),
{
    let mut actions: Vec<Action> = Vec::new();
    assert(actions_view(actions) =~= Seq::<ActionView>::empty());
    match (phase, event) {
        (Phase::Start, Event::Started(installation)) => start(installation),
        (Phase::Asking { exe }, Event::Answered(yes)) => {
            if yes {
                emit(&mut actions, Action::CheckWritable(exe.clone()));
                Step { phase: Phase::Checking { exe }, actions }
            } else {
                print(&mut actions, "Aborted!");
                emit(&mut actions, Action::Finish(Outcome::Success));
                assert(actions_view(actions) =~= next(phase@, event@).actions);
                Step { phase: Phase::Finished, actions }
            }
        },
        (Phase::Checking { exe }, Event::Writable(yes)) => {
            if yes {
                emit(&mut actions, Action::RemoveFile(exe));
            } else {
                let line = "Need to sudo to uninstall ".to_owned().concat(exe.as_str());
                emit(&mut actions, Action::Print(line));
                emit(&mut actions, Action::RemoveFileElevated(exe));
            }
            assert(actions_view(actions) =~= next(phase@, event@).actions);
            Step { phase: Phase::Removing, actions }
        },
        (Phase::Removing, Event::Removed) => {
            print(&mut actions, "Uninstalled!");
            emit(&mut actions, Action::Finish(Outcome::Success));
            assert(actions_view(actions) =~= next(phase@, event@).actions);
            Step { phase: Phase::Finished, actions }
        },
        (phase, _) => Step { phase, actions },
    }
}

/// Whether the actions remove the executable.
pub open spec fn removes(actions: Seq<ActionView>) -> bool {
    exists|i: int|
        0 <= i < actions.len() && ((#[trigger] actions[i]) is RemoveFile || actions[i]
            is RemoveFileElevated)
}

/// The executable is removed in one step only: the one that follows the
/// finding of whether it can be written. It is then removed directly where it
/// can be written, and with elevated rights where it cannot.
pub proof fn law_removal_follows_the_check(phase: PhaseView, event: EventView)
    requires
        removes(next(phase, event).actions),
    ensures
        phase is Checking,
        event is Writable,
        next(phase, event).actions.last() == if event->Writable_0 {
            ActionView::RemoveFile(phase->Checking_exe)
        } else {
            ActionView::RemoveFileElevated(phase->Checking_exe)
        },
{
}

/// Whether the installation removes itself once the user agrees: it is not
/// managed, the platform is not Windows, and this is no test run.
pub open spec fn removable(found: InstallationView) -> bool {
    !found.origin.homebrew && !found.origin.npm && !found.origin.windows
        && !found.integration_test
}

/// That finding is asked for only with consent: at the start of an
/// installation that removes itself where `--confirm` was given, or after the
/// user has answered yes.
pub proof fn law_removal_needs_consent(phase: PhaseView, event: EventView)
    requires
        next(phase, event).phase is Checking,
        !(phase is Checking),
    ensures
        match (phase, event) {
            (PhaseView::Asking { .. }, EventView::Answered(yes)) => yes,
            (PhaseView::Start, EventView::Started(found)) => found.confirm && removable(found),
            _ => false,
        },
{
}

} // verus!
