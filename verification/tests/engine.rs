use gsoc2_cli::commands::preexecute_hooks;
use gsoc2_cli::config::{Auth, Config, Overrides};
use gsoc2_cli::engine::{
    conclude, error_report, execute, setup, Action, Event, ExitSignal, Failure, Outcome, Phase,
    Step, SUPPRESSION_NOTICE,
};
use gsoc2_cli::invocation::Invocation;
use gsoc2_cli::level::LevelFilter;
use gsoc2_cli::registry::{standard_descriptors, CommandRegistry};

fn registry() -> CommandRegistry {
    CommandRegistry::new(standard_descriptors(false)).unwrap()
}

fn persisted() -> Config {
    Config {
        base_url: "https://gsoc2.io/".to_string(),
        auth: None,
        headers: vec!["x:y".to_string()],
        log_level: None,
        quiet: false,
        allow_failure: false,
    }
}

fn no_overrides() -> Overrides {
    Overrides {
        api_key: None,
        auth_token: None,
        url: None,
        headers: vec![],
        quiet: false,
        allow_failure: false,
    }
}

fn invocation(subcommand: Option<&str>) -> Invocation {
    Invocation {
        overrides: no_overrides(),
        log_level: None,
        subcommand: subcommand.map(|name| name.to_string()),
    }
}

fn failure(message: &str, causes: &[&str]) -> Failure {
    Failure {
        message: message.to_string(),
        causes: causes.iter().map(|cause| cause.to_string()).collect(),
    }
}

fn loading(subcommand: Option<&str>) -> Phase {
    Phase::Loading {
        overrides: no_overrides(),
        log_level: None,
        subcommand: subcommand.map(|name| name.to_string()),
    }
}

#[test]
fn setup_prepares_the_process() {
    assert_eq!(
        setup(),
        Step {
            phase: Phase::Start,
            actions: vec![
                Action::InitBacktrace,
                Action::LoadDotenv,
                Action::SetMaxLevel(LevelFilter::Debug),
                Action::BindLogger,
            ],
        }
    );
}

#[test]
fn hooks_are_not_handled_without_the_capability() {
    for marker in [None, Some("1".to_string()), Some("0".to_string())] {
        assert!(!preexecute_hooks(false, &marker));
        assert_eq!(
            execute(Phase::Start, Event::Started { hook_capable: false, marker }, &registry()),
            Step { phase: Phase::Parsing, actions: vec![Action::ParseArguments] }
        );
    }
}

#[test]
fn hooks_are_not_handled_without_the_marker() {
    assert!(!preexecute_hooks(true, &None));
    assert_eq!(
        execute(Phase::Start, Event::Started { hook_capable: true, marker: None }, &registry()),
        Step { phase: Phase::Parsing, actions: vec![Action::ParseArguments] }
    );
}

#[test]
fn hooks_handle_the_marker_on_a_capable_platform() {
    for value in ["1", "0", "yes", ""] {
        let marker = Some(value.to_string());
        assert!(preexecute_hooks(true, &marker));
        assert_eq!(
            execute(Phase::Start, Event::Started { hook_capable: true, marker }, &registry()),
            Step {
                phase: Phase::Wrapping,
                actions: vec![Action::ClearMarker, Action::RunWrappedCall],
            }
        );
    }
}

#[test]
fn wrapped_call_decides_the_exit_code() {
    assert_eq!(
        execute(Phase::Wrapping, Event::WrappedCall(Outcome::Success), &registry()),
        Step { phase: Phase::Finished, actions: vec![Action::DisposePool, Action::Exit(0)] }
    );
    assert_eq!(
        execute(
            Phase::Wrapping,
            Event::WrappedCall(Outcome::Failure(failure("boom", &[]))),
            &registry()
        ),
        Step {
            phase: Phase::Finished,
            actions: vec![
                Action::Diagnostic("error: boom".to_string()),
                Action::DisposePool,
                Action::Exit(1),
            ],
        }
    );
}

#[test]
fn parsed_line_asks_for_the_configuration() {
    let mut line = invocation(Some("info"));
    line.log_level = Some("trace".to_string());
    line.overrides.quiet = true;
    let step = execute(Phase::Parsing, Event::Parsed(line.clone()), &registry());
    assert_eq!(
        step,
        Step {
            phase: Phase::Loading {
                overrides: line.overrides,
                log_level: Some(LevelFilter::Trace),
                subcommand: Some("info".to_string()),
            },
            actions: vec![Action::SetMaxLevel(LevelFilter::Trace), Action::LoadConfig],
        }
    );
    let plain = execute(Phase::Parsing, Event::Parsed(invocation(Some("info"))), &registry());
    assert_eq!(plain.actions, vec![Action::LoadConfig]);
}

#[test]
fn bogus_log_level_ends_the_run_before_any_command() {
    let mut line = invocation(Some("info"));
    line.log_level = Some("bogus".to_string());
    assert_eq!(
        execute(Phase::Parsing, Event::Parsed(line), &registry()),
        Step {
            phase: Phase::Finished,
            actions: vec![
                Action::Diagnostic("error: Unknown log level: bogus".to_string()),
                Action::DisposePool,
                Action::Exit(1),
            ],
        }
    );
}

#[test]
fn configuration_that_cannot_be_loaded_ends_the_run() {
    assert_eq!(
        execute(
            loading(Some("info")),
            Event::ConfigFailed(failure("cannot read", &["no such file"])),
            &registry()
        ),
        Step {
            phase: Phase::Finished,
            actions: vec![
                Action::Diagnostic("error: cannot read".to_string()),
                Action::Diagnostic("  caused by: no such file".to_string()),
                Action::DisposePool,
                Action::Exit(1),
            ],
        }
    );
}

#[test]
fn loaded_configuration_is_resolved_bound_and_dispatched() {
    let phase = Phase::Loading {
        overrides: Overrides {
            api_key: Some("K".to_string()),
            auth_token: Some("T".to_string()),
            url: Some("https://example.com/".to_string()),
            headers: vec!["a:b".to_string(), "c:d".to_string()],
            quiet: true,
            allow_failure: true,
        },
        log_level: Some(LevelFilter::Trace),
        subcommand: Some("info".to_string()),
    };
    assert_eq!(
        execute(phase, Event::ConfigLoaded(persisted()), &registry()),
        Step {
            phase: Phase::Running { naggable: true, allow_failure: true },
            actions: vec![
                Action::SetQuietMode(true),
                Action::BindConfig(Config {
                    base_url: "https://example.com/".to_string(),
                    auth: Some(Auth::Token("T".to_string())),
                    headers: vec!["x:y".to_string(), "a:b".to_string(), "c:d".to_string()],
                    log_level: Some(LevelFilter::Trace),
                    quiet: false,
                    allow_failure: false,
                }),
                Action::RunCommand(5),
            ],
        }
    );
}

#[test]
fn persisted_allow_failure_is_kept() {
    let mut base = persisted();
    base.allow_failure = true;
    base.log_level = Some(LevelFilter::Warn);
    let step = execute(loading(Some("send-event")), Event::ConfigLoaded(base.clone()), &registry());
    assert_eq!(
        step,
        Step {
            phase: Phase::Running { naggable: false, allow_failure: true },
            actions: vec![
                Action::SetQuietMode(false),
                Action::BindConfig(base),
                Action::RunCommand(14),
            ],
        }
    );
}

#[test]
fn completions_bypass_dispatch_and_nagging() {
    assert_eq!(
        execute(loading(Some("completions")), Event::ConfigLoaded(persisted()), &registry()),
        Step {
            phase: Phase::Finished,
            actions: vec![
                Action::SetQuietMode(false),
                Action::BindConfig(persisted()),
                Action::PrintCompletions,
                Action::DisposePool,
                Action::Exit(0),
            ],
        }
    );
}

#[test]
fn unregistered_or_missing_subcommand_reaches_no_executor() {
    assert_eq!(
        execute(loading(Some("nope")), Event::ConfigLoaded(persisted()), &registry()),
        Step {
            phase: Phase::Finished,
            actions: vec![
                Action::SetQuietMode(false),
                Action::BindConfig(persisted()),
                Action::Diagnostic("error: Unknown subcommand: nope".to_string()),
                Action::DisposePool,
                Action::Exit(1),
            ],
        }
    );
    let step = execute(loading(None), Event::ConfigLoaded(persisted()), &registry());
    assert_eq!(step.phase, Phase::Finished);
    assert_eq!(
        step.actions[2..],
        [
            Action::Diagnostic("error: No subcommand given".to_string()),
            Action::DisposePool,
            Action::Exit(1),
        ]
    );
}

#[test]
fn exit_signal_gives_its_code_and_prints_nothing() {
    for allow_failure in [false, true] {
        assert_eq!(
            execute(
                Phase::Running { naggable: false, allow_failure },
                Event::Executed(Outcome::SilentExit(ExitSignal { code: 3 })),
                &registry()
            ),
            Step { phase: Phase::Finished, actions: vec![Action::DisposePool, Action::Exit(3)] }
        );
    }
}

#[test]
fn allowed_failure_exits_with_zero_after_the_notice() {
    let step = execute(
        Phase::Running { naggable: false, allow_failure: true },
        Event::Executed(Outcome::Failure(failure("upload failed", &["timeout", "dns"]))),
        &registry(),
    );
    assert_eq!(
        step,
        Step {
            phase: Phase::Finished,
            actions: vec![
                Action::Diagnostic("error: upload failed".to_string()),
                Action::Diagnostic("  caused by: timeout".to_string()),
                Action::Diagnostic("  caused by: dns".to_string()),
                Action::Diagnostic(SUPPRESSION_NOTICE.to_string()),
                Action::DisposePool,
                Action::Exit(0),
            ],
        }
    );
    assert!(SUPPRESSION_NOTICE.contains("Exiting with 0 exit code"));
}

#[test]
fn failure_exits_with_one() {
    assert_eq!(
        conclude(Outcome::Failure(failure("upload failed", &[])), false, false),
        vec![
            Action::Diagnostic("error: upload failed".to_string()),
            Action::DisposePool,
            Action::Exit(1),
        ]
    );
}

#[test]
fn success_exits_with_zero() {
    assert_eq!(
        conclude(Outcome::Success, false, false),
        vec![Action::DisposePool, Action::Exit(0)]
    );
}

#[test]
fn naggable_command_is_followed_by_the_update_check() {
    assert_eq!(
        conclude(Outcome::Success, true, false),
        vec![Action::RunUpdateNagger, Action::DisposePool, Action::Exit(0)]
    );
    assert_eq!(
        conclude(Outcome::Failure(failure("bad", &[])), true, false),
        vec![
            Action::Diagnostic("error: bad".to_string()),
            Action::RunUpdateNagger,
            Action::DisposePool,
            Action::Exit(1),
        ]
    );
    assert_eq!(
        conclude(Outcome::SilentExit(ExitSignal { code: 7 }), true, true),
        vec![Action::RunUpdateNagger, Action::DisposePool, Action::Exit(7)]
    );
}

#[test]
fn other_command_is_never_followed_by_the_update_check() {
    for outcome in [
        Outcome::Success,
        Outcome::SilentExit(ExitSignal { code: 1 }),
        Outcome::Failure(failure("bad", &["worse"])),
    ] {
        for allow_failure in [false, true] {
            let actions = conclude(outcome.clone(), false, allow_failure);
            assert!(!actions.contains(&Action::RunUpdateNagger));
        }
    }
}

#[test]
fn error_report_lists_the_causes() {
    assert_eq!(
        error_report(&failure("top", &["middle", "bottom"])),
        vec![
            "error: top".to_string(),
            "  caused by: middle".to_string(),
            "  caused by: bottom".to_string(),
        ]
    );
    assert_eq!(error_report(&failure("", &[])), vec!["error: ".to_string()]);
}

#[test]
fn event_out_of_turn_changes_nothing() {
    assert_eq!(
        execute(Phase::Finished, Event::Executed(Outcome::Success), &registry()),
        Step { phase: Phase::Finished, actions: vec![] }
    );
    assert_eq!(
        execute(Phase::Start, Event::ConfigLoaded(persisted()), &registry()),
        Step { phase: Phase::Start, actions: vec![] }
    );
    assert_eq!(
        execute(loading(Some("info")), Event::Parsed(invocation(None)), &registry()),
        Step { phase: loading(Some("info")), actions: vec![] }
    );
}

#[test]
fn whole_run_of_a_naggable_command() {
    let registry = registry();
    let mut trace: Vec<Action> = setup().actions;
    let mut phase = Phase::Start;
    let events = vec![
        Event::Started { hook_capable: true, marker: None },
        Event::Parsed(Invocation {
            overrides: Overrides { headers: vec!["a:b".to_string()], ..no_overrides() },
            log_level: Some("info".to_string()),
            subcommand: Some("releases".to_string()),
        }),
        Event::ConfigLoaded(persisted()),
        Event::Executed(Outcome::Success),
    ];
    for event in events {
        let step = execute(phase, event, &registry);
        phase = step.phase;
        trace.extend(step.actions);
    }
    let mut bound = persisted();
    bound.headers.push("a:b".to_string());
    bound.log_level = Some(LevelFilter::Info);
    assert_eq!(phase, Phase::Finished);
    assert_eq!(
        trace,
        vec![
            Action::InitBacktrace,
            Action::LoadDotenv,
            Action::SetMaxLevel(LevelFilter::Debug),
            Action::BindLogger,
            Action::ParseArguments,
            Action::SetMaxLevel(LevelFilter::Info),
            Action::LoadConfig,
            Action::SetQuietMode(false),
            Action::BindConfig(bound),
            Action::RunCommand(12),
            Action::RunUpdateNagger,
            Action::DisposePool,
            Action::Exit(0),
        ]
    );
}

#[test]
fn run_binds_and_disposes_once_whatever_is_reported() {
    let registry = registry();
    let mut trace: Vec<Action> = Vec::new();
    let mut phase = Phase::Start;
    let events = vec![
        Event::Executed(Outcome::Success),
        Event::Started { hook_capable: false, marker: Some("1".to_string()) },
        Event::Started { hook_capable: false, marker: None },
        Event::Parsed(invocation(Some("info"))),
        Event::Parsed(invocation(Some("info"))),
        Event::ConfigLoaded(persisted()),
        Event::ConfigLoaded(persisted()),
        Event::ConfigFailed(failure("late", &[])),
        Event::Executed(Outcome::Failure(failure("bad", &[]))),
        Event::Executed(Outcome::Success),
        Event::ConfigLoaded(persisted()),
        Event::WrappedCall(Outcome::Success),
    ];
    for event in events {
        let step = execute(phase, event, &registry);
        phase = step.phase;
        trace.extend(step.actions);
    }
    assert_eq!(phase, Phase::Finished);
    let count = |wanted: fn(&Action) -> bool| trace.iter().filter(|action| wanted(action)).count();
    assert_eq!(count(|action| matches!(action, Action::BindConfig(_))), 1);
    assert_eq!(count(|action| matches!(action, Action::RunCommand(_))), 1);
    assert_eq!(count(|action| matches!(action, Action::DisposePool)), 1);
    assert_eq!(count(|action| matches!(action, Action::Exit(_))), 1);
    assert_eq!(count(|action| matches!(action, Action::RunUpdateNagger)), 1);
    assert_eq!(trace.last(), Some(&Action::Exit(1)));
}

#[test]
fn failure_is_allowed_by_the_flag_or_by_the_configuration() {
    for (flag, persisted_setting) in [(false, false), (true, false), (false, true), (true, true)] {
        let mut base = persisted();
        base.allow_failure = persisted_setting;
        let phase = Phase::Loading {
            overrides: Overrides { allow_failure: flag, ..no_overrides() },
            log_level: None,
            subcommand: Some("send-event".to_string()),
        };
        let step = execute(phase, Event::ConfigLoaded(base.clone()), &registry());
        assert_eq!(
            step,
            Step {
                phase: Phase::Running {
                    naggable: false,
                    allow_failure: flag || persisted_setting,
                },
                actions: vec![
                    Action::SetQuietMode(false),
                    Action::BindConfig(base),
                    Action::RunCommand(14),
                ],
            }
        );
    }
}
