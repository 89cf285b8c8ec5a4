//! What holds of every run, proved from the definitions of the other modules.

use crate::commands::{dispatch_failure, hook_handles, parsed_log_level, unknown_log_level};
use crate::config::{overridden, AuthView, ConfigView, OverridesView};
use crate::engine::{
    concluded, dispatched, error_lines, exit_code, nagging, next, refused, report, resolved,
    said, shutdown, ActionView, EventView, FailureView, OutcomeView, PhaseView, StepView,
    SUPPRESSION_NOTICE,
};
use crate::invocation::InvocationView;
use crate::level::{requested_level, spells, LevelFilter};
use crate::registry::{position, registered, valid_table, DescriptorView, COMPLETIONS};
use vstd::prelude::*;

verus! {

/// Whether the actions print anything on the diagnostic stream.
pub open spec fn prints(actions: Seq<ActionView>) -> bool {
    exists|i: int| 0 <= i < actions.len() && (#[trigger] actions[i]) is Diagnostic
}

/// Whether the actions run any command.
pub open spec fn runs_any(actions: Seq<ActionView>) -> bool {
    exists|i: int| 0 <= i < actions.len() && (#[trigger] actions[i]) is RunCommand
}

/// Whether the actions end with the disposal of the pool and the exit with
/// the code, and dispose the pool nowhere else.
pub open spec fn ends_with(actions: Seq<ActionView>, code: i32) -> bool {
    &&& actions.len() >= 2
    &&& actions[actions.len() - 2] == ActionView::DisposePool
    &&& actions[actions.len() - 1] == ActionView::Exit(code)
    &&& forall|i: int|
        0 <= i < actions.len() - 2 ==> !((#[trigger] actions[i]) is DisposePool) && !(actions[i]
            is Exit)
}

/// A level name in any mix of upper and lower case is read as that level;
/// such a word for `trace` gives `Trace`.
pub proof fn law_trace_is_read(text: Seq<char>)
    requires
        spells(text, "trace"@),
    ensures
        requested_level(text) == Some(LevelFilter::Trace),
        parsed_log_level(Some(text)) == Ok::<_, Seq<char>>(Some(LevelFilter::Trace)),
{
    reveal_strlit("off");
    reveal_strlit("error");
    reveal_strlit("warn");
    reveal_strlit("info");
    reveal_strlit("debug");
    reveal_strlit("trace");
    assert(!spells(text, "error"@)) by {
        if spells(text, "error"@) {
            assert(text[0] == 'e' || text[0] == 'E');
        }
    }
}

/// `Off` is a level that no command line can ask for.
pub proof fn law_off_is_never_requested(text: Seq<char>)
    ensures
        requested_level(text) != Some(LevelFilter::Off),
        parsed_log_level(Some(text)) != Ok::<_, Seq<char>>(Some(LevelFilter::Off)),
{
}

/// The level that the command line asks for is the level of the resolved
/// configuration.
pub proof fn law_level_is_resolved(base: ConfigView, overrides: OverridesView, level: LevelFilter)
    ensures
        resolved(base, overrides, Some(level)).log_level == Some(level),
{
}

/// A value of `--log-level` that names no level ends the run before the
/// configuration is loaded and before any command runs: the one line printed
/// names the value, and the exit code is one.
pub proof fn law_unknown_level_is_refused(
    invocation: InvocationView,
    token: Seq<char>,
    table: Seq<DescriptorView>,
)
    requires
        invocation.log_level == Some(token),
        requested_level(token) is None,
    ensures
        next(PhaseView::Parsing, EventView::Parsed(invocation), table) == (StepView {
            phase: PhaseView::Finished,
            actions: seq![
                ActionView::Diagnostic("error: Unknown log level: "@ + token),
                ActionView::DisposePool,
                ActionView::Exit(1),
            ],
        }),
        !runs_any(next(PhaseView::Parsing, EventView::Parsed(invocation), table).actions),
{
    let step = next(PhaseView::Parsing, EventView::Parsed(invocation), table);
    reveal_strlit("error: ");
    reveal_strlit("Unknown log level: ");
    reveal_strlit("error: Unknown log level: ");
    assert("error: "@ + unknown_log_level(token) =~= "error: Unknown log level: "@ + token);
    assert(step.actions =~= seq![
        ActionView::Diagnostic("error: Unknown log level: "@ + token),
        ActionView::DisposePool,
        ActionView::Exit(1),
    ]);
}

/// Where the command line gives an auth token, the resolved credentials are
/// that token, whether or not it gives an API key too.
pub proof fn law_token_wins(base: ConfigView, overrides: OverridesView, token: Seq<char>)
    requires
        overrides.auth_token == Some(token),
    ensures
        overridden(base, overrides).auth == Some(AuthView::Token(token)),
{
}

/// A command line that gives no API key, no auth token, no URL and no header
/// leaves the configuration as it was, whatever else it gives.
pub proof fn law_nothing_given_changes_nothing(base: ConfigView, overrides: OverridesView)
    requires
        overrides.api_key is None,
        overrides.auth_token is None,
        overrides.url is None,
        overrides.headers.len() == 0,
    ensures
        overridden(base, overrides) == base,
{
    assert(overridden(base, overrides).headers =~= base.headers);
}

/// The overrides change credentials, URL and headers at most: the log level,
/// the quiet mode and the allow-failure setting stay as they were.
pub proof fn law_overrides_touch_three_fields(base: ConfigView, overrides: OverridesView)
    ensures
        overridden(base, overrides) == (ConfigView {
            auth: overridden(base, overrides).auth,
            base_url: overridden(base, overrides).base_url,
            headers: overridden(base, overrides).headers,
            ..base
        }),
{
}

/// A failure of the command is allowed where the flag says so or the bound
/// configuration does, and only there.
pub proof fn law_failure_allowed_by_flag_or_configuration(
    base: ConfigView,
    overrides: OverridesView,
    log_level: Option<LevelFilter>,
    subcommand: Option<Seq<char>>,
    table: Seq<DescriptorView>,
)
    requires
        next(
            PhaseView::Loading { overrides, log_level, subcommand },
            EventView::ConfigLoaded(base),
            table,
        ).phase is Running,
    ensures
        next(
            PhaseView::Loading { overrides, log_level, subcommand },
            EventView::ConfigLoaded(base),
            table,
        ).phase->Running_allow_failure == (base.allow_failure || overrides.allow_failure),
{
}

/// The headers of the command line follow the persisted headers, each list
/// in its own order, and nothing is dropped.
pub proof fn law_headers_are_appended(base: ConfigView, overrides: OverridesView)
    ensures
        overridden(base, overrides).headers.len() == base.headers.len()
            + overrides.headers.len(),
        forall|i: int|
            0 <= i < base.headers.len() ==> overridden(base, overrides).headers[i]
                == base.headers[i],
        forall|i: int|
            0 <= i < overrides.headers.len() ==> overridden(
                base,
                overrides,
            ).headers[base.headers.len() + i] == overrides.headers[i],
{
}

/// Dispatch is total and exclusive. Where the selected subcommand has the
/// name of a descriptor, the command at that descriptor's position runs and
/// no other; where no subcommand is selected or its name is not registered,
/// no command runs and the run ends, with exit code zero for `completions`
/// and with exit code one else.
pub proof fn law_dispatch_is_total_and_exclusive(
    table: Seq<DescriptorView>,
    subcommand: Option<Seq<char>>,
    allow_failure: bool,
)
    requires
        valid_table(table),
    ensures
        match subcommand {
            Some(name) if registered(table, name) => {
                let index = position(table, name);
                &&& 0 <= index < table.len()
                &&& table[index].name == name
                &&& forall|other: int|
                    0 <= other < table.len() && other != index ==> (#[trigger] table[other]).name
                        != name
                &&& dispatched(table, subcommand, allow_failure) == (StepView {
                    phase: PhaseView::Running { naggable: table[index].naggable, allow_failure },
                    actions: seq![ActionView::RunCommand(index)],
                })
            },
            _ => {
                &&& dispatched(table, subcommand, allow_failure).phase == PhaseView::Finished
                &&& !runs_any(dispatched(table, subcommand, allow_failure).actions)
                &&& ends_with(
                    dispatched(table, subcommand, allow_failure).actions,
                    if subcommand == Some(COMPLETIONS@) {
                        0i32
                    } else {
                        1i32
                    },
                )
            },
        },
{
}

/// An exit signal ends the run with exactly its code, and nothing is printed.
pub proof fn law_exit_signal_is_silent(code: i32, naggable: bool, allow_failure: bool)
    ensures
        !prints(concluded(OutcomeView::SilentExit(code), naggable, allow_failure)),
        ends_with(concluded(OutcomeView::SilentExit(code), naggable, allow_failure), code),
{
}

/// Where failures are allowed, a failure ends the run with exit code zero,
/// after its text and then the suppression notice have been printed.
pub proof fn law_allowed_failure_is_suppressed(failure: FailureView, naggable: bool)
    ensures
        ends_with(concluded(OutcomeView::Failure(failure), naggable, true), 0),
        concluded(OutcomeView::Failure(failure), naggable, true)[0] == ActionView::Diagnostic(
            "error: "@ + failure.message,
        ),
        concluded(OutcomeView::Failure(failure), naggable, true)[failure.causes.len() as int + 1]
            == ActionView::Diagnostic(SUPPRESSION_NOTICE@),
{
}

/// Where failures are not allowed, a failure that is no exit signal ends the
/// run with exit code one, after its text has been printed.
pub proof fn law_failure_is_reported(failure: FailureView, naggable: bool)
    ensures
        ends_with(concluded(OutcomeView::Failure(failure), naggable, false), 1),
        concluded(OutcomeView::Failure(failure), naggable, false)[0] == ActionView::Diagnostic(
            "error: "@ + failure.message,
        ),
{
}

/// Whether the actions hold the update check.
pub open spec fn nags(actions: Seq<ActionView>) -> bool {
    exists|i: int| 0 <= i < actions.len() && (#[trigger] actions[i]) is RunUpdateNagger
}

/// The update check follows a command exactly where its descriptor is
/// naggable, however the command ended.
pub proof fn law_nagging_follows_the_descriptor(
    outcome: OutcomeView,
    naggable: bool,
    allow_failure: bool,
)
    ensures
        nags(concluded(outcome, naggable, allow_failure)) <==> naggable,
{
    let lines = report(outcome, allow_failure);
    let actions = concluded(outcome, naggable, allow_failure);
    if naggable {
        assert(actions[lines.len() as int] is RunUpdateNagger);
    }
}

/// The update check is asked for in one place only: in the step after a
/// command that is naggable has ended.
pub proof fn law_nagging_only_after_a_command(
    phase: PhaseView,
    event: EventView,
    table: Seq<DescriptorView>,
)
    requires
        nags(next(phase, event, table).actions),
    ensures
        phase matches PhaseView::Running { naggable, .. } && naggable,
        event is Executed,
{
    match (phase, event) {
        (PhaseView::Wrapping, EventView::WrappedCall(outcome)) => {
            law_nagging_follows_the_descriptor(outcome, false, false);
        },
        (PhaseView::Parsing, EventView::Parsed(invocation)) => {
            if let Err(token) = parsed_log_level(invocation.log_level) {
                lemma_refusal_shape(unknown_log_level(token));
            }
        },
        (PhaseView::Loading { overrides, log_level, subcommand }, EventView::ConfigLoaded(base)) => {
            let config = resolved(base, overrides, log_level);
            lemma_dispatch_shape(
                table,
                subcommand,
                config.allow_failure || overrides.allow_failure,
            );
        },
        (PhaseView::Running { naggable, allow_failure }, EventView::Executed(outcome)) => {
            law_nagging_follows_the_descriptor(outcome, naggable, allow_failure);
        },
        _ => {},
    }
}

/// A refusal is one printed line and the shutdown with exit code one.
pub proof fn lemma_refusal_shape(message: Seq<char>)
    ensures
        refused(message) == seq![
            ActionView::Diagnostic("error: "@ + message),
            ActionView::DisposePool,
            ActionView::Exit(1),
        ],
{
}

/// What the step after binding can hold: nothing but the completion script
/// and the shutdown, or one command to run, or a refusal.
pub proof fn lemma_dispatch_shape(
    table: Seq<DescriptorView>,
    subcommand: Option<Seq<char>>,
    allow_failure: bool,
)
    ensures
        ({
            let step = dispatched(table, subcommand, allow_failure);
            ||| step.actions == seq![
                ActionView::PrintCompletions,
                ActionView::DisposePool,
                ActionView::Exit(0),
            ] && step.phase == PhaseView::Finished
            ||| exists|index: int|
                step.actions == seq![ActionView::RunCommand(index)] && step.phase
                    is Running
            ||| step.actions == refused(dispatch_failure(subcommand)) && step.phase
                == PhaseView::Finished
        }),
{
}

/// On a platform without the hook that runs before parsing, the run goes on
/// to parse the command line, whatever the environment holds, and clears
/// nothing.
pub proof fn law_no_hook_without_capability(marker: Option<Seq<char>>, table: Seq<DescriptorView>)
    ensures
        !hook_handles(false, marker),
        next(
            PhaseView::Start,
            EventView::Started { hook_capable: false, marker },
            table,
        ) == (StepView { phase: PhaseView::Parsing, actions: seq![ActionView::ParseArguments] }),
{
}

/// Without the marker the run goes on to parse the command line, on every
/// platform.
pub proof fn law_no_hook_without_marker(hook_capable: bool, table: Seq<DescriptorView>)
    ensures
        !hook_handles(hook_capable, None),
        next(
            PhaseView::Start,
            EventView::Started { hook_capable, marker: None },
            table,
        ) == (StepView { phase: PhaseView::Parsing, actions: seq![ActionView::ParseArguments] }),
{
}

/// Where the platform has the hook and the marker is set, whatever it holds,
/// the invocation is handled: the marker is cleared and the wrapped call runs
/// in place of parsing, configuration and dispatch. Its outcome alone decides
/// the exit code.
pub proof fn law_handled_invocation_short_circuits(
    value: Seq<char>,
    outcome: OutcomeView,
    table: Seq<DescriptorView>,
)
    ensures
        hook_handles(true, Some(value)),
        next(
            PhaseView::Start,
            EventView::Started { hook_capable: true, marker: Some(value) },
            table,
        ) == (StepView {
            phase: PhaseView::Wrapping,
            actions: seq![ActionView::ClearMarker, ActionView::RunWrappedCall],
        }),
        next(PhaseView::Wrapping, EventView::WrappedCall(outcome), table).phase
            == PhaseView::Finished,
        ends_with(
            next(PhaseView::Wrapping, EventView::WrappedCall(outcome), table).actions,
            exit_code(outcome, false),
        ),
        !nags(next(PhaseView::Wrapping, EventView::WrappedCall(outcome), table).actions),
{
    law_nagging_follows_the_descriptor(outcome, false, false);
    lemma_conclusion_ends(outcome, false, false);
}

/// Every conclusion ends with the disposal of the pool and the exit with the
/// code of the outcome.
pub proof fn lemma_conclusion_ends(outcome: OutcomeView, naggable: bool, allow_failure: bool)
    ensures
        ends_with(concluded(outcome, naggable, allow_failure), exit_code(outcome, allow_failure)),
{
}

/// The kinds of action that a run may ask for once at most.
pub enum Once {
    /// The binding of the configuration.
    Bind,
    /// The running of a command.
    Run,
    /// The disposal of the pool.
    Dispose,
    /// The exit of the process.
    Exit,
}

/// Whether the action is of the kind.
pub open spec fn is_of(action: ActionView, kind: Once) -> bool {
    match kind {
        Once::Bind => action is BindConfig,
        Once::Run => action is RunCommand,
        Once::Dispose => action is DisposePool,
        Once::Exit => action is Exit,
    }
}

/// No action is of the kind.
pub open spec fn none_of(actions: Seq<ActionView>, kind: Once) -> bool {
    forall|i: int| 0 <= i < actions.len() ==> !is_of(#[trigger] actions[i], kind)
}

/// One action at most is of the kind.
pub open spec fn at_most_one(actions: Seq<ActionView>, kind: Once) -> bool {
    forall|i: int, j: int|
        0 <= i < j < actions.len() ==> !(is_of(#[trigger] actions[i], kind) && is_of(
            #[trigger] actions[j],
            kind,
        ))
}

/// How far a phase is into the run.
pub open spec fn rank(phase: PhaseView) -> nat {
    match phase {
        PhaseView::Start => 0,
        PhaseView::Wrapping => 1,
        PhaseView::Parsing => 1,
        PhaseView::Loading { .. } => 2,
        PhaseView::Running { .. } => 3,
        PhaseView::Finished => 4,
    }
}

/// The rank that a run has reached once it has asked for an action of the
/// kind.
pub open spec fn reached_by(kind: Once) -> nat {
    match kind {
        Once::Bind => 3,
        Once::Run => 3,
        Once::Dispose => 4,
        Once::Exit => 4,
    }
}

/// The phase in which a run ends, and all actions it asks for, where the
/// events arrive in the given order.
pub open spec fn run(phase: PhaseView, events: Seq<EventView>, table: Seq<DescriptorView>) -> StepView
    decreases events.len(),
{
    if events.len() == 0 {
        StepView { phase, actions: Seq::empty() }
    } else {
        let first = next(phase, events[0], table);
        let rest = run(first.phase, events.drop_first(), table);
        StepView { phase: rest.phase, actions: first.actions + rest.actions }
    }
}

/// Lines are printed by actions that do nothing else.
proof fn lemma_said_only_prints(lines: Seq<Seq<char>>)
    ensures
        said(lines).len() == lines.len(),
        forall|i: int| 0 <= i < lines.len() ==> (#[trigger] said(lines)[i]) is Diagnostic,
{
}

/// A step either changes nothing and asks for nothing, or moves the run
/// forward. It asks for an action that happens once only where it crosses
/// the rank that goes with that kind, and then for one such action. A step
/// that ends the run disposes the pool.
pub proof fn law_steps_move_forward(
    phase: PhaseView,
    event: EventView,
    table: Seq<DescriptorView>,
    kind: Once,
)
    ensures
        ({
            let step = next(phase, event, table);
            &&& (step.phase == phase && step.actions.len() == 0) || rank(step.phase) > rank(phase)
            &&& at_most_one(step.actions, kind)
            &&& !none_of(step.actions, kind) ==> rank(phase) < reached_by(kind) <= rank(step.phase)
            &&& step.phase is Finished && !(phase is Finished) ==> !none_of(
                step.actions,
                Once::Dispose,
            )
        }),
{
    let step = next(phase, event, table);
    match (phase, event) {
        (PhaseView::Wrapping, EventView::WrappedCall(outcome)) => {
            lemma_conclusion_once(outcome, false, false, kind);
            lemma_conclusion_once(outcome, false, false, Once::Dispose);
        },
        (PhaseView::Parsing, EventView::Parsed(invocation)) => {
            if let Err(token) = parsed_log_level(invocation.log_level) {
                lemma_refusal_shape(unknown_log_level(token));
            }
        },
        (PhaseView::Loading { .. }, EventView::ConfigFailed(failure)) => {
            let lines = error_lines(failure);
            lemma_said_only_prints(lines);
            assert(is_of(step.actions[lines.len() as int], Once::Dispose));
            assert forall|i: int| 0 <= i < lines.len() implies (#[trigger] step.actions[i])
                is Diagnostic by {}
        },
        (PhaseView::Loading { overrides, log_level, subcommand }, EventView::ConfigLoaded(base)) => {
            let config = resolved(base, overrides, log_level);
            let chosen = dispatched(
                table,
                subcommand,
                config.allow_failure || overrides.allow_failure,
            );
            lemma_dispatch_shape(
                table,
                subcommand,
                config.allow_failure || overrides.allow_failure,
            );
            lemma_refusal_shape(dispatch_failure(subcommand));
            assert forall|i: int| 2 <= i < step.actions.len() implies #[trigger] step.actions[i]
                == chosen.actions[i - 2] by {}
            if chosen.phase is Finished {
                assert(is_of(step.actions[3], Once::Dispose));
            }
        },
        (PhaseView::Running { naggable, allow_failure }, EventView::Executed(outcome)) => {
            lemma_conclusion_once(outcome, naggable, allow_failure, kind);
            lemma_conclusion_once(outcome, naggable, allow_failure, Once::Dispose);
        },
        _ => {},
    }
}

/// A conclusion disposes the pool once and exits once, and neither binds a
/// configuration nor runs a command.
proof fn lemma_conclusion_once(
    outcome: OutcomeView,
    naggable: bool,
    allow_failure: bool,
    kind: Once,
)
    ensures
        at_most_one(concluded(outcome, naggable, allow_failure), kind),
        !none_of(concluded(outcome, naggable, allow_failure), kind) <==> (kind is Dispose || kind
            is Exit),
{
    let lines = report(outcome, allow_failure);
    let actions = concluded(outcome, naggable, allow_failure);
    lemma_said_only_prints(lines);
    let n = (lines.len() + nagging(naggable).len()) as int;
    assert forall|i: int| 0 <= i < n implies (#[trigger] actions[i]) is Diagnostic || actions[i]
        is RunUpdateNagger by {}
    if kind is Dispose {
        assert(is_of(actions[n], kind));
    }
    if kind is Exit {
        assert(is_of(actions[n + 1], kind));
    }
}

/// In every run, whatever is reported and in whatever order, the
/// configuration is bound once at most, one command at most runs, and the
/// pool is disposed and the process exits once at most; none of these happens
/// again in a run that goes on from a phase that lies behind it. A run never
/// goes back, and one that ends has disposed the pool.
pub proof fn law_once_per_run(
    phase: PhaseView,
    events: Seq<EventView>,
    table: Seq<DescriptorView>,
    kind: Once,
)
    ensures
        at_most_one(run(phase, events, table).actions, kind),
        rank(phase) >= reached_by(kind) ==> none_of(run(phase, events, table).actions, kind),
        rank(run(phase, events, table).phase) >= rank(phase),
        run(phase, events, table).phase is Finished && !(phase is Finished) ==> !none_of(
            run(phase, events, table).actions,
            Once::Dispose,
        ),
    decreases events.len(),
{
    if events.len() > 0 {
        let first = next(phase, events[0], table);
        let rest = run(first.phase, events.drop_first(), table);
        let all = first.actions + rest.actions;
        law_steps_move_forward(phase, events[0], table, kind);
        law_once_per_run(first.phase, events.drop_first(), table, kind);
        law_once_per_run(first.phase, events.drop_first(), table, Once::Dispose);
        assert forall|i: int, j: int| 0 <= i < j < all.len() implies !(is_of(
            #[trigger] all[i],
            kind,
        ) && is_of(#[trigger] all[j], kind)) by {}
        if rank(phase) >= reached_by(kind) {
            assert forall|i: int| 0 <= i < all.len() implies !is_of(#[trigger] all[i], kind) by {}
        }
        if rest.phase is Finished && !(phase is Finished) {
            if first.phase is Finished {
                let i = choose|i: int|
                    0 <= i < first.actions.len() && is_of(
                        #[trigger] first.actions[i],
                        Once::Dispose,
                    );
                assert(all[i] == first.actions[i]);
            } else {
                let i = choose|i: int|
                    0 <= i < rest.actions.len() && is_of(
                        #[trigger] rest.actions[i],
                        Once::Dispose,
                    );
                assert(all[first.actions.len() + i] == rest.actions[i]);
            }
        }
    }
}

/// Once a run has finished, nothing that is reported asks for anything.
pub proof fn law_finished_is_final(events: Seq<EventView>, table: Seq<DescriptorView>)
    ensures
        run(PhaseView::Finished, events, table) == (StepView {
            phase: PhaseView::Finished,
            actions: Seq::empty(),
        }),
    decreases events.len(),
{
    if events.len() > 0 {
        law_finished_is_final(events.drop_first(), table);
    }
}

/// Whether the actions do nothing but print, dispose the pool and exit.
pub open spec fn only_reports_and_ends(actions: Seq<ActionView>) -> bool {
    forall|i: int|
        0 <= i < actions.len() ==> (#[trigger] actions[i]) is Diagnostic || actions[i]
            is DisposePool || actions[i] is Exit
}

/// A run that the hook has handled does none of the normal flow, whatever is
/// reported: nothing is parsed, no configuration is loaded or bound, no
/// command runs, and the update check is not made.
pub proof fn law_handled_run_does_nothing_else(events: Seq<EventView>, table: Seq<DescriptorView>)
    ensures
        only_reports_and_ends(run(PhaseView::Wrapping, events, table).actions),
    decreases events.len(),
{
    if events.len() > 0 {
        let first = next(PhaseView::Wrapping, events[0], table);
        if first.phase is Finished {
            law_finished_is_final(events.drop_first(), table);
            if let EventView::WrappedCall(outcome) = events[0] {
                lemma_said_only_prints(report(outcome, false));
            }
        } else {
            law_handled_run_does_nothing_else(events.drop_first(), table);
        }
    }
}

} // verus!
