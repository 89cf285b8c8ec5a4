use gsoc2_cli::commands::{
    add_commands, app, configure_args, get_log_level, parse_log_level, ParseError,
};
use gsoc2_cli::config::{Auth, Config, Overrides};
use gsoc2_cli::invocation::Invocation;
use gsoc2_cli::level::LevelFilter;
use gsoc2_cli::registry::{standard_descriptors, CommandRegistry};

fn registry() -> CommandRegistry {
    CommandRegistry::new(standard_descriptors(false)).unwrap()
}

fn full_app() -> clap::Command {
    add_commands(app(), &registry(), |_, node| node)
}

fn parse(line: &[&str]) -> clap::ArgMatches {
    full_app().try_get_matches_from(line).unwrap()
}

fn persisted() -> Config {
    Config {
        base_url: "https://gsoc2.io/".to_string(),
        auth: None,
        headers: vec!["x:y".to_string()],
        log_level: None,
        quiet: false,
        allow_failure: false,
    }
}

#[test]
fn verify_app() {
    app().debug_assert();
}

#[test]
fn verify_app_with_subcommands() {
    full_app().debug_assert();
}

#[test]
fn root_command_has_the_global_arguments_in_order() {
    let command = app();
    let ids: Vec<String> = command.get_arguments().map(|arg| arg.get_id().to_string()).collect();
    assert_eq!(
        ids,
        vec!["url", "headers", "auth_token", "api_key", "log_level", "quiet", "allow_failure"]
    );
    assert_eq!(command.get_name(), "gsoc2-cli");
    assert!(command.is_subcommand_required_set());
    assert!(command.is_arg_required_else_help_set());
    let longs: Vec<Option<&str>> = command.get_arguments().map(|arg| arg.get_long()).collect();
    assert_eq!(
        longs,
        vec![
            Some("url"),
            Some("header"),
            Some("auth-token"),
            Some("api-key"),
            Some("log-level"),
            Some("quiet"),
            Some("allow-failure")
        ]
    );
    let globals: Vec<bool> = command.get_arguments().map(|arg| arg.is_global_set()).collect();
    assert_eq!(globals, vec![false, true, true, false, true, true, true]);
}

#[test]
fn root_command_has_the_completions_subcommand() {
    let command = app();
    let names: Vec<&str> = command.get_subcommands().map(|sub| sub.get_name()).collect();
    assert_eq!(names, vec!["completions"]);
}

#[test]
fn add_commands_adds_one_subcommand_per_descriptor_in_order() {
    let command = full_app();
    let names: Vec<&str> = command.get_subcommands().map(|sub| sub.get_name()).collect();
    assert_eq!(names.len(), 23);
    assert_eq!(names[0], "completions");
    assert_eq!(names[1], "bash-hook");
    assert_eq!(names[2], "debug-files");
    assert_eq!(names[18], "uninstall");
    assert_eq!(names[22], "upload-proguard");
}

#[test]
fn add_commands_hands_each_builder_its_position() {
    let registry = CommandRegistry::new(standard_descriptors(true)).unwrap();
    let command = add_commands(app(), &registry, |index, node| {
        node.about(format!("command {index}"))
    });
    let abouts: Vec<String> = command
        .get_subcommands()
        .skip(1)
        .map(|sub| sub.get_about().unwrap().to_string())
        .collect();
    assert_eq!(abouts.len(), 20);
    assert_eq!(abouts[0], "command 0");
    assert_eq!(abouts[19], "command 19");
}

#[test]
fn log_level_trace_is_read() {
    let matches = parse(&["gsoc2-cli", "--log-level", "trace", "info"]);
    assert_eq!(get_log_level(&matches), Ok(Some(LevelFilter::Trace)));
}

#[test]
fn log_level_ignores_case() {
    let matches = parse(&["gsoc2-cli", "--log-level", "WaRn", "info"]);
    assert_eq!(get_log_level(&matches), Ok(Some(LevelFilter::Warn)));
}

#[test]
fn log_level_after_the_subcommand_is_read() {
    let matches = parse(&["gsoc2-cli", "info", "--log-level", "debug"]);
    assert_eq!(get_log_level(&matches), Ok(Some(LevelFilter::Debug)));
}

#[test]
fn log_level_absent_is_none() {
    let matches = parse(&["gsoc2-cli", "info"]);
    assert_eq!(get_log_level(&matches), Ok(None));
}

#[test]
fn log_level_bogus_is_refused_by_the_parser() {
    let parsed = full_app().try_get_matches_from(["gsoc2-cli", "--log-level", "bogus", "info"]);
    assert!(parsed.is_err());
    assert!(parsed.unwrap_err().to_string().contains("bogus"));
}

#[test]
fn log_level_bogus_fails_with_an_error_naming_it() {
    let command = clap::Command::new("probe").arg(clap::Arg::new("log_level").long("log-level"));
    let matches = command.try_get_matches_from(["probe", "--log-level", "bogus"]).unwrap();
    let error = get_log_level(&matches).unwrap_err();
    assert_eq!(error, ParseError { token: "bogus".to_string() });
    assert_eq!(error.message(), "Unknown log level: bogus");
}

#[test]
fn log_level_off_cannot_be_asked_for() {
    assert_eq!(
        parse_log_level(&Some("off".to_string())),
        Err(ParseError { token: "off".to_string() })
    );
    assert_eq!(LevelFilter::parse("OFF"), None);
}

#[test]
fn every_level_name_is_read() {
    assert_eq!(LevelFilter::parse("error"), Some(LevelFilter::Error));
    assert_eq!(LevelFilter::parse("warn"), Some(LevelFilter::Warn));
    assert_eq!(LevelFilter::parse("info"), Some(LevelFilter::Info));
    assert_eq!(LevelFilter::parse("debug"), Some(LevelFilter::Debug));
    assert_eq!(LevelFilter::parse("Trace"), Some(LevelFilter::Trace));
    assert_eq!(LevelFilter::parse(""), None);
    assert_eq!(LevelFilter::parse("traces"), None);
    assert_eq!(parse_log_level(&None), Ok(None));
}

#[test]
fn token_wins_over_key_in_either_order() {
    let first = parse(&["gsoc2-cli", "--api-key", "K", "--auth-token", "T", "info"]);
    let mut config = persisted();
    configure_args(&mut config, &first);
    assert_eq!(config.auth, Some(Auth::Token("T".to_string())));

    let second = parse(&["gsoc2-cli", "--auth-token", "T", "--api-key", "K", "info"]);
    let mut config = persisted();
    configure_args(&mut config, &second);
    assert_eq!(config.auth, Some(Auth::Token("T".to_string())));
}

#[test]
fn key_alone_sets_the_key() {
    let matches = parse(&["gsoc2-cli", "--api-key", "K", "info"]);
    let mut config = persisted();
    config.auth = Some(Auth::Token("old".to_string()));
    configure_args(&mut config, &matches);
    assert_eq!(config.auth, Some(Auth::Key("K".to_string())));
}

#[test]
fn no_credentials_keep_the_persisted_ones() {
    let matches = parse(&["gsoc2-cli", "info"]);
    let mut config = persisted();
    config.auth = Some(Auth::Key("kept".to_string()));
    configure_args(&mut config, &matches);
    assert_eq!(config.auth, Some(Auth::Key("kept".to_string())));
    assert_eq!(config.base_url, "https://gsoc2.io/");
    assert_eq!(config.headers, vec!["x:y".to_string()]);
}

#[test]
fn headers_are_appended_in_order() {
    let matches = parse(&["gsoc2-cli", "--header", "a:b", "--header", "c:d", "info"]);
    let mut config = persisted();
    configure_args(&mut config, &matches);
    assert_eq!(config.headers, vec!["x:y".to_string(), "a:b".to_string(), "c:d".to_string()]);

    let mut empty = persisted();
    empty.headers = vec![];
    configure_args(&mut empty, &matches);
    assert_eq!(empty.headers, vec!["a:b".to_string(), "c:d".to_string()]);
}

#[test]
fn url_overrides_the_base_url() {
    let matches = parse(&["gsoc2-cli", "--url", "https://example.com/", "info"]);
    let mut config = persisted();
    configure_args(&mut config, &matches);
    assert_eq!(config.base_url, "https://example.com/");
}

#[test]
fn invocation_is_read_from_the_matches() {
    let matches = parse(&[
        "gsoc2-cli",
        "--url",
        "https://example.com/",
        "--silent",
        "--allow-failure",
        "--log-level",
        "Info",
        "send-event",
        "--header",
        "a:b",
    ]);
    let invocation = Invocation::read(&matches);
    assert_eq!(
        invocation,
        Invocation {
            overrides: Overrides {
                api_key: None,
                auth_token: None,
                url: Some("https://example.com/".to_string()),
                headers: vec!["a:b".to_string()],
                quiet: true,
                allow_failure: true,
            },
            log_level: Some("Info".to_string()),
            subcommand: Some("send-event".to_string()),
        }
    );
}

#[test]
fn invocation_of_foreign_matches_is_empty() {
    let matches = clap::Command::new("probe").try_get_matches_from(["probe"]).unwrap();
    let invocation = Invocation::read(&matches);
    assert_eq!(
        invocation,
        Invocation {
            overrides: Overrides {
                api_key: None,
                auth_token: None,
                url: None,
                headers: vec![],
                quiet: false,
                allow_failure: false,
            },
            log_level: None,
            subcommand: None,
        }
    );
}

#[test]
fn missing_subcommand_is_a_parse_failure() {
    assert!(full_app().try_get_matches_from(["gsoc2-cli"]).is_err());
    assert!(full_app().try_get_matches_from(["gsoc2-cli", "--quiet"]).is_err());
    assert!(full_app().try_get_matches_from(["gsoc2-cli", "no-such-command"]).is_err());
}

#[test]
fn completions_takes_a_shell() {
    let matches = parse(&["gsoc2-cli", "completions", "bash"]);
    assert_eq!(Invocation::read(&matches).subcommand, Some("completions".to_string()));
    assert!(full_app().try_get_matches_from(["gsoc2-cli", "completions", "nosuchshell"]).is_err());
}

fn argument(command: &clap::Command, id: &str) -> clap::Arg {
    command.get_arguments().find(|arg| arg.get_id() == id).unwrap().clone()
}

#[test]
fn root_command_describes_itself() {
    let command = app();
    assert_eq!(command.get_version(), Some("0.1.0"));
    let about = command.get_about().unwrap().to_string();
    assert!(about.starts_with("\nCommand line utility for Gsoc2."));
    assert!(about.ends_with("to learn more about them."));
}

#[test]
fn arguments_have_their_value_names_and_help() {
    let command = app();
    let names: Vec<Option<String>> = command
        .get_arguments()
        .map(|arg| arg.get_value_names().map(|names| names[0].to_string()))
        .collect();
    assert_eq!(
        names,
        vec![
            Some("URL".to_string()),
            Some("KEY:VALUE".to_string()),
            Some("AUTH_TOKEN".to_string()),
            Some("API_KEY".to_string()),
            Some("LOG_LEVEL".to_string()),
            None,
            None,
        ]
    );
    assert_eq!(
        argument(&command, "auth_token").get_help().unwrap().to_string(),
        "Use the given Gsoc2 auth token."
    );
    assert_eq!(
        argument(&command, "api_key").get_help().unwrap().to_string(),
        "Use the given Gsoc2 API key."
    );
    assert_eq!(
        argument(&command, "allow_failure").get_help().unwrap().to_string(),
        "Always return 0 exit code."
    );
}

#[test]
fn arguments_have_their_actions() {
    let command = app();
    assert!(matches!(argument(&command, "headers").get_action(), clap::ArgAction::Append));
    assert!(matches!(argument(&command, "quiet").get_action(), clap::ArgAction::SetTrue));
    assert!(matches!(
        argument(&command, "allow_failure").get_action(),
        clap::ArgAction::SetTrue
    ));
}

#[test]
fn log_level_lists_its_words_and_ignores_case() {
    let command = app();
    let log_level = argument(&command, "log_level");
    let words: Vec<String> =
        log_level.get_possible_values().iter().map(|word| word.get_name().to_string()).collect();
    assert_eq!(words, vec!["trace", "debug", "info", "warn", "error"]);
    assert!(log_level.is_ignore_case_set());
    assert!(!argument(&command, "url").is_ignore_case_set());
}

#[test]
fn quiet_is_also_called_silent() {
    let command = app();
    assert_eq!(argument(&command, "quiet").get_visible_aliases(), Some(vec!["silent"]));
    let matches = parse(&["gsoc2-cli", "--quiet", "info"]);
    assert!(Invocation::read(&matches).overrides.quiet);
    let matches = parse(&["gsoc2-cli", "info", "--silent"]);
    assert!(Invocation::read(&matches).overrides.quiet);
    let matches = parse(&["gsoc2-cli", "info"]);
    assert!(!Invocation::read(&matches).overrides.quiet);
}

#[test]
fn completions_subcommand_describes_itself() {
    let command = app();
    let completions = command.find_subcommand("completions").unwrap();
    assert_eq!(
        completions.get_about().unwrap().to_string(),
        "Generate completions for the specified shell."
    );
    assert!(completions.is_arg_required_else_help_set());
    let shell = argument(completions, "shell");
    assert_eq!(shell.get_help().unwrap().to_string(), "The shell to print completions for.");
    let shells: Vec<String> =
        shell.get_possible_values().iter().map(|word| word.get_name().to_string()).collect();
    assert!(shells.contains(&"bash".to_string()));
    assert!(shells.contains(&"zsh".to_string()));
}

#[test]
fn api_key_and_url_are_not_inherited_by_subcommands() {
    assert!(full_app().try_get_matches_from(["gsoc2-cli", "info", "--api-key", "K"]).is_err());
    assert!(full_app().try_get_matches_from(["gsoc2-cli", "info", "--url", "u"]).is_err());
    assert!(full_app().try_get_matches_from(["gsoc2-cli", "info", "--auth-token", "T"]).is_ok());
}

#[test]
fn completions_needs_its_shell_even_beside_other_arguments() {
    assert!(full_app().try_get_matches_from(["gsoc2-cli", "completions", "--quiet"]).is_err());
    assert!(full_app().try_get_matches_from(["gsoc2-cli", "completions"]).is_err());
    assert!(full_app().try_get_matches_from(["gsoc2-cli", "completions", "--quiet", "zsh"]).is_ok());
    let command = app();
    let completions = command.find_subcommand("completions").unwrap();
    assert!(argument(completions, "shell").is_required_set());
    assert!(!argument(&command, "url").is_required_set());
}

#[test]
fn flags_leave_the_configuration_as_it_was() {
    let matches = parse(&[
        "gsoc2-cli",
        "--quiet",
        "--allow-failure",
        "--log-level",
        "trace",
        "info",
    ]);
    let mut config = persisted();
    configure_args(&mut config, &matches);
    assert_eq!(config, persisted());

    let mut loud = persisted();
    loud.quiet = true;
    loud.allow_failure = true;
    loud.log_level = Some(LevelFilter::Warn);
    let before = loud.clone();
    configure_args(&mut loud, &parse(&["gsoc2-cli", "info"]));
    assert_eq!(loud, before);
}

#[test]
fn the_hidden_argument_is_an_argument_of_the_root_command() {
    let command = app();
    assert_eq!(gsoc2_cli::commands::HIDDEN_ARGUMENT, "allow_failure");
    assert!(command.get_arguments().any(|arg| arg.get_id() == gsoc2_cli::commands::HIDDEN_ARGUMENT));
}
