//! The root command of the tool.

pub mod uninstall;

use crate::parser::{
    arg_action, arg_global, arg_help, arg_ignore_case, arg_long, arg_new,
    arg_possible_values, arg_required, arg_shell_values, arg_value_name, arg_visible_alias, command_about,
    command_arg, command_arg_required_else_help, command_max_term_width, command_model,
    command_new, command_subcommand, command_subcommand_required, command_version, new_arg,
    new_command, ArgAction, ArgModel, CommandModel, ValueSet,
};
use crate::config::{overridden, Config, Overrides};
use crate::invocation::{
    first_string, get_one_string, matched_flags, matched_strings, overrides_of,
};
use crate::level::{requested_level, LevelFilter};
use crate::registry::{position, registered, CommandRegistry, DescriptorView, COMPLETIONS};
use vstd::prelude::*;
use vstd::string::StringExecFns;

verus! {

/// The version that `--version` prints.
pub const VERSION: &'static str = "0.1.0";

/// The description of the tool in its help.
pub const ABOUT: &'static str = "
Command line utility for Gsoc2.

This tool helps you manage remote resources on a Gsoc2 server like
sourcemaps, debug symbols or releases.  Use `--help` on the subcommands
to learn more about them.";

pub const URL_HELP: &'static str =
    "Fully qualified URL to the Gsoc2 server.{n}[default: https://gsoc2.io/]";

pub const HEADERS_HELP: &'static str =
    "Custom headers that should be attached to all requests{n}in key:value format.";

pub const AUTH_TOKEN_HELP: &'static str = "Use the given Gsoc2 auth token.";

pub const API_KEY_HELP: &'static str = "Use the given Gsoc2 API key.";

pub const LOG_LEVEL_HELP: &'static str = "Set the log output verbosity.";

pub const QUIET_HELP: &'static str =
    "Do not print any output while preserving correct exit code. This flag is currently implemented only for selected subcommands.";

pub const ALLOW_FAILURE_HELP: &'static str = "Always return 0 exit code.";

pub const COMPLETIONS_ABOUT: &'static str = "Generate completions for the specified shell.";

pub const SHELL_HELP: &'static str = "The shell to print completions for.";

/// The id of the global argument that the help is to leave out. The embedding
/// program marks it so on the command that [`app`] builds.
pub const HIDDEN_ARGUMENT: &'static str = "allow_failure";

/// The words that `--log-level` accepts.
pub open spec fn log_level_words() -> Seq<Seq<char>> {
    seq!["trace"@, "debug"@, "info"@, "warn"@, "error"@]
}

/// The global arguments of the root command, in the order of the help.
pub open spec fn global_args() -> Seq<ArgModel> {
    seq![
        ArgModel {
            long: Some("url"@),
            value_name: Some("URL"@),
            help: Some(URL_HELP@),
            ..new_arg("url"@)
        },
        ArgModel {
            long: Some("header"@),
            value_name: Some("KEY:VALUE"@),
            help: Some(HEADERS_HELP@),
            action: Some(ArgAction::Append),
            global: true,
            ..new_arg("headers"@)
        },
        ArgModel {
            long: Some("auth-token"@),
            value_name: Some("AUTH_TOKEN"@),
            help: Some(AUTH_TOKEN_HELP@),
            global: true,
            ..new_arg("auth_token"@)
        },
        ArgModel {
            long: Some("api-key"@),
            value_name: Some("API_KEY"@),
            help: Some(API_KEY_HELP@),
            ..new_arg("api_key"@)
        },
        ArgModel {
            long: Some("log-level"@),
            value_name: Some("LOG_LEVEL"@),
            help: Some(LOG_LEVEL_HELP@),
            values: Some(ValueSet::Listed(log_level_words())),
            ignore_case: true,
            global: true,
            ..new_arg("log_level"@)
        },
        ArgModel {
            long: Some("quiet"@),
            visible_aliases: seq!["silent"@],
            help: Some(QUIET_HELP@),
            action: Some(ArgAction::SetTrue),
            global: true,
            ..new_arg("quiet"@)
        },
        ArgModel {
            long: Some("allow-failure"@),
            help: Some(ALLOW_FAILURE_HELP@),
            action: Some(ArgAction::SetTrue),
            global: true,
            ..new_arg("allow_failure"@)
        },
    ]
}

/// The built-in subcommand that prints a completion script. Its one
/// argument, the shell, is required.
pub open spec fn completions_command() -> CommandModel {
    CommandModel {
        about: Some(COMPLETIONS_ABOUT@),
        arg_required_else_help: true,
        args: seq![
            ArgModel {
                help: Some(SHELL_HELP@),
                values: Some(ValueSet::Shells),
                required: true,
                ..new_arg("shell"@)
            },
        ],
        ..new_command(COMPLETIONS@)
    }
}

/// The root command before the subcommands of the registry are added: it
/// asks for a subcommand, shows the help where no argument is given, and
/// holds the global arguments and the `completions` subcommand.
pub open spec fn root_command() -> CommandModel {
    CommandModel {
        version: Some(VERSION@),
        about: Some(ABOUT@),
        max_term_width: Some(100),
        subcommand_required: true,
        arg_required_else_help: true,
        args: global_args(),
        subcommands: seq![completions_command()],
        ..new_command("gsoc2-cli"@)
    }
}

/// Builds the root command with its global arguments and the `completions`
/// subcommand.
pub fn app() -> (command: clap::Command)
    ensures
        command_model(command) == root_command(),
{
    let url = arg_help(arg_long(arg_value_name(arg_new("url"), "URL"), "url"), URL_HELP);
    let headers = arg_help(
        arg_global(
            arg_action(
                arg_value_name(arg_long(arg_new("headers"), "header"), "KEY:VALUE"),
                ArgAction::Append,
            ),
            true,
        ),
        HEADERS_HELP,
    );
    let auth_token = arg_help(
        arg_global(
            arg_long(arg_value_name(arg_new("auth_token"), "AUTH_TOKEN"), "auth-token"),
            true,
        ),
        AUTH_TOKEN_HELP,
    );
    let api_key = arg_help(
        arg_long(arg_value_name(arg_new("api_key"), "API_KEY"), "api-key"),
        API_KEY_HELP,
    );
    let words: Vec<&'static str> = vec!["trace", "debug", "info", "warn", "error"];
    assert(words.deep_view() =~= log_level_words());
    let log_level = arg_help(
        arg_global(
            arg_ignore_case(
                arg_possible_values(
                    arg_long(arg_value_name(arg_new("log_level"), "LOG_LEVEL"), "log-level"),
                    words,
                ),
                true,
            ),
            true,
        ),
        LOG_LEVEL_HELP,
    );
    let quiet = arg_help(
        arg_global(
            arg_action(
                arg_visible_alias(arg_long(arg_new("quiet"), "quiet"), "silent"),
                ArgAction::SetTrue,
            ),
            true,
        ),
        QUIET_HELP,
    );
    let allow_failure = arg_help(
        arg_global(
            arg_action(arg_long(arg_new("allow_failure"), "allow-failure"), ArgAction::SetTrue),
            true,
        ),
        ALLOW_FAILURE_HELP,
    );
    let shell = arg_required(arg_shell_values(arg_help(arg_new("shell"), SHELL_HELP)), true);
    let completions = command_arg(
        command_arg_required_else_help(
            command_about(command_new(COMPLETIONS), COMPLETIONS_ABOUT),
            true,
        ),
        shell,
    );

    let mut command = command_new("gsoc2-cli");
    command = command_version(command, VERSION);
    command = command_about(command, ABOUT);
    command = command_max_term_width(command, 100);
    command = command_subcommand_required(command, true);
    command = command_arg_required_else_help(command, true);
    command = command_arg(command, url);
    command = command_arg(command, headers);
    command = command_arg(command, auth_token);
    command = command_arg(command, api_key);
    command = command_arg(command, log_level);
    command = command_arg(command, quiet);
    command = command_arg(command, allow_failure);
    command = command_subcommand(command, completions);
    assert(command_model(command).args =~= global_args());
    command
}

/// What `build` may have made of a new command with the name, at the
/// position of a descriptor.
pub open spec fn built_by<F: Fn(usize, clap::Command) -> clap::Command>(
    build: F,
    index: int,
    name: Seq<char>,
    child: CommandModel,
) -> bool {
    exists|node: clap::Command, made: clap::Command|
        #![trigger call_ensures(build, (index as usize, node), made)]
        command_model(node) == new_command(name) && call_ensures(
            build,
            (index as usize, node),
            made,
        ) && command_model(made) == child
}

/// Adds one subcommand for each descriptor of the registry, in its order,
/// after the subcommands already there. Each is what `build` makes of a new
/// command named by the descriptor, given the descriptor's position.
pub fn add_commands<F: Fn(usize, clap::Command) -> clap::Command>(
    app: clap::Command,
    registry: &CommandRegistry,
    build: F,
) -> (out: clap::Command)
    requires
        forall|index: usize, node: clap::Command|
            index < registry@.len() ==> call_requires(build, (index, node)),
    ensures
        command_model(out) == (CommandModel {
            subcommands: command_model(out).subcommands,
            ..command_model(app)
        }),
        command_model(out).subcommands.len() == command_model(app).subcommands.len()
            + registry@.len(),
        command_model(out).subcommands.take(command_model(app).subcommands.len() as int)
            == command_model(app).subcommands,
        forall|i: int|
            0 <= i < registry@.len() ==> built_by(
                build,
                i,
                registry@[i].name,
                #[trigger] command_model(out).subcommands[command_model(app).subcommands.len() + i],
            ),
{
    let ghost before = command_model(app);
    let ghost base = before.subcommands.len() as int;
    let mut out = app;
    let mut index: usize = 0;
    while index < registry.len()
        invariant
            index <= registry@.len(),
            base == before.subcommands.len(),
            forall|i: usize, node: clap::Command|
                i < registry@.len() ==> call_requires(build, (i, node)),
            command_model(out) == (CommandModel {
                subcommands: command_model(out).subcommands,
                ..before
            }),
            command_model(out).subcommands.len() == base + index,
            command_model(out).subcommands.take(base) == before.subcommands,
            forall|i: int|
                0 <= i < index ==> built_by(
                    build,
                    i,
                    registry@[i].name,
                    #[trigger] command_model(out).subcommands[base + i],
                ),
        decreases registry@.len() - index,
    {
        let node = command_new(registry.get(index).name.as_str());
        let made = build(index, node);
        out = command_subcommand(out, made);
        proof {
            let now = command_model(out).subcommands;
            assert forall|i: int| 0 <= i < index + 1 implies built_by(
                build,
                i,
                registry@[i].name,
                #[trigger] now[base + i],
            ) by {}
        }
        index += 1;
    }
    out
}

/// The environment variable that marks a process started to stand in for
/// another build tool.
pub const WRAP_MARKER: &'static str = "__GSOC2_RN_WRAP_XCODE_CALL";

/// The environment variable that turns failures into a zero exit code.
pub const ALLOW_FAILURE_VARIABLE: &'static str = "GSOC2_ALLOW_FAILURE";

/// Whether the hook chain handles the invocation: it does where the platform
/// has the hook and the marker is set, whatever it holds.
pub open spec fn hook_handles(capable: bool, marker: Option<Seq<char>>) -> bool {
    capable && marker is Some
}

/// Decides, before anything is parsed, whether this process stands in for
/// another build tool. `capable` says whether the platform has that hook;
/// `marker` is the value of [`WRAP_MARKER`] in the environment. Where the
/// result is true, the marker is to be cleared and the wrapped call to be
/// run in place of the normal flow.
pub fn preexecute_hooks(capable: bool, marker: &Option<String>) -> (handled: bool)
    ensures
        handled == hook_handles(capable, marker.deep_view()),
{
    capable && marker.is_some()
}

/// A value of `--log-level` that names no level.
#[derive(Clone, Debug, PartialEq, Eq)]
pub struct ParseError {
    /// The value as typed.
    pub token: String,
}

/// The text of the error for a value that names no level.
pub open spec fn unknown_log_level(token: Seq<char>) -> Seq<char> {
    "Unknown log level: "@ + token
}

impl ParseError {
    /// The text of the error, which names the value.
    pub fn message(&self) -> (text: String)
        ensures
            text@ == unknown_log_level(self.token@),
    {
        "Unknown log level: ".to_owned().concat(self.token.as_str())
    }
}

/// The level that a value of `--log-level` asks for: none where the flag is
/// absent, the named level where it names one, and else the value itself as
/// the error.
pub open spec fn parsed_log_level(value: Option<Seq<char>>) -> Result<
    Option<LevelFilter>,
    Seq<char>,
> {
    match value {
        None => Ok(None),
        Some(text) => match requested_level(text) {
            Some(level) => Ok(Some(level)),
            None => Err(text),
        },
    }
}

/// Reads the level that a value of `--log-level` asks for.
pub fn parse_log_level(value: &Option<String>) -> (parsed: Result<Option<LevelFilter>, ParseError>)
    ensures
        match parsed {
            Ok(level) => parsed_log_level(value.deep_view()) == Ok::<_, Seq<char>>(level),
            Err(error) => parsed_log_level(value.deep_view()) == Err::<Option<LevelFilter>, _>(
                error.token@,
            ),
        },
{
    match value {
        None => Ok(None),
        Some(text) => match LevelFilter::parse(text.as_str()) {
            Some(level) => Ok(Some(level)),
            None => Err(ParseError { token: text.clone() }),
        },
    }
}

/// Reads the level that the command line asks for.
pub fn get_log_level(matches: &clap::ArgMatches) -> (parsed: Result<
    Option<LevelFilter>,
    ParseError,
>)
    ensures
        match parsed {
            Ok(level) => parsed_log_level(first_string(matched_strings(*matches), "log_level"@))
                == Ok::<_, Seq<char>>(level),
            Err(error) => parsed_log_level(first_string(matched_strings(*matches), "log_level"@))
                == Err::<Option<LevelFilter>, _>(error.token@),
        },
{
    let value = get_one_string(matches, "log_level");
    parse_log_level(&value)
}

/// Applies the command line to the configuration: credentials, URL and
/// headers. Nothing else of the configuration changes.
pub fn configure_args(config: &mut Config, matches: &clap::ArgMatches)
    ensures
        final(config)@ == overridden(
            old(config)@,
            overrides_of(matched_strings(*matches), matched_flags(*matches)),
        ),
{
    let overrides = Overrides::read(matches);
    config.apply(&overrides);
}

/// Why no command could be chosen.
#[derive(Clone, Debug, PartialEq, Eq)]
pub enum DispatchError {
    /// The command line selects no subcommand.
    NoSubcommand,
    /// The selected subcommand is not in the registry.
    Unregistered(String),
}

/// The position of the descriptor that the subcommand selects, if it
/// selects one.
pub open spec fn target(table: Seq<DescriptorView>, subcommand: Option<Seq<char>>) -> Option<int> {
    match subcommand {
        Some(name) => if registered(table, name) {
            Some(position(table, name))
        } else {
            None
        },
        None => None,
    }
}

/// The text of the error for a command line that selects no command.
pub open spec fn dispatch_failure(subcommand: Option<Seq<char>>) -> Seq<char> {
    match subcommand {
        Some(name) => "Unknown subcommand: "@ + name,
        None => "No subcommand given"@,
    }
}

impl DispatchError {
    /// The text of the error.
    pub fn message(&self) -> (text: String)
        ensures
            text@ == dispatch_failure(
                match self {
                    DispatchError::NoSubcommand => None,
                    DispatchError::Unregistered(name) => Some(name@),
                },
            ),
    {
        match self {
            DispatchError::NoSubcommand => "No subcommand given".to_owned(),
            DispatchError::Unregistered(name) => "Unknown subcommand: ".to_owned().concat(
                name.as_str(),
            ),
        }
    }
}

/// Chooses the command to run: the one descriptor that has the name of the
/// selected subcommand. Fails where no subcommand is selected or its name is
/// not registered.
pub fn run_command(registry: &CommandRegistry, subcommand: &Option<String>) -> (chosen: Result<
    usize,
    DispatchError,
>)
    ensures
        match chosen {
            Ok(index) => {
                &&& target(registry@, subcommand.deep_view()) == Some(index as int)
                &&& index < registry@.len()
                &&& Some(registry@[index as int].name) == subcommand.deep_view()
                &&& forall|other: int|
                    0 <= other < registry@.len() && other != index ==> Some(
                        (#[trigger] registry@[other]).name,
                    ) != subcommand.deep_view()
            },
            Err(DispatchError::NoSubcommand) => subcommand is None,
            Err(DispatchError::Unregistered(name)) => {
                &&& subcommand.deep_view() == Some(name@)
                &&& !registered(registry@, name@)
            },
        },
        chosen is Err <==> target(registry@, subcommand.deep_view()) is None,
{
    match subcommand {
        None => Err(DispatchError::NoSubcommand),
        Some(name) => match registry.find(name.as_str()) {
            Some(index) => Ok(index),
            None => Err(DispatchError::Unregistered(name.clone())),
        },
    }
}

} // verus!
