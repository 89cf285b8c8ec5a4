//! The argument parser of the `clap` crate, as far as this crate builds it.
//!
//! A `clap::Command` and a `clap::Arg` are opaque here. What the builder
//! calls have put into one is described by a model, and each builder call is
//! made through a function of this module whose contract says, without
//! proof, what the call does to the model. The model holds what this crate
//! sets. Whether the help shows an item is set by the embedding program.

use vstd::prelude::*;

verus! {

/// Makes `clap::Command` known as an opaque type.
#[verifier::external_type_specification]
#[verifier::external_body]
pub struct ExCommand(clap::Command);

/// Makes `clap::Arg` known as an opaque type.
#[verifier::external_type_specification]
#[verifier::external_body]
pub struct ExArg(clap::Arg);

/// What an argument does with its occurrences on the command line.
#[derive(Clone, Copy, Debug, PartialEq, Eq, Structural)]
pub enum ArgAction {
    /// Every occurrence adds a value.
    Append,
    /// The argument is a flag that is off unless it occurs.
    SetTrue,
}

/// The values that an argument accepts.
pub enum ValueSet {
    /// One of the listed words.
    Listed(Seq<Seq<char>>),
    /// The name of a shell that completions can be generated for.
    Shells,
}

/// What the builder calls have put into an argument.
pub struct ArgModel {
    pub id: Seq<char>,
    pub long: Option<Seq<char>>,
    pub visible_aliases: Seq<Seq<char>>,
    pub value_name: Option<Seq<char>>,
    pub help: Option<Seq<char>>,
    pub action: Option<ArgAction>,
    pub values: Option<ValueSet>,
    pub ignore_case: bool,
    pub required: bool,
    pub global: bool,
}

/// What the builder calls have put into a command.
pub struct CommandModel {
    pub name: Seq<char>,
    pub version: Option<Seq<char>>,
    pub about: Option<Seq<char>>,
    pub max_term_width: Option<usize>,
    pub subcommand_required: bool,
    pub arg_required_else_help: bool,
    pub args: Seq<ArgModel>,
    pub subcommands: Seq<CommandModel>,
}

/// The model of an argument.
pub uninterp spec fn arg_model(arg: clap::Arg) -> ArgModel;

/// The model of a command.
pub uninterp spec fn command_model(command: clap::Command) -> CommandModel;

/// The model of an argument on which nothing but its id is set.
pub open spec fn new_arg(id: Seq<char>) -> ArgModel {
    ArgModel {
        id,
        long: None,
        visible_aliases: Seq::empty(),
        value_name: None,
        help: None,
        action: None,
        values: None,
        ignore_case: false,
        required: false,
        global: false,
    }
}

/// The model of a command on which nothing but its name is set.
pub open spec fn new_command(name: Seq<char>) -> CommandModel {
    CommandModel {
        name,
        version: None,
        about: None,
        max_term_width: None,
        subcommand_required: false,
        arg_required_else_help: false,
        args: Seq::empty(),
        subcommands: Seq::empty(),
    }
}

/// `clap::Arg::new`. Trusted: the argument has the id and nothing else set.
#[verifier::external_body]
pub(crate) fn arg_new(id: &str) -> (arg: clap::Arg)
    ensures
        arg_model(arg) == new_arg(id@),
{
    clap::Arg::new(id.to_owned())
}

/// `clap::Arg::long`. Trusted: sets the long flag name, and nothing else.
#[verifier::external_body]
pub(crate) fn arg_long(arg: clap::Arg, name: &str) -> (out: clap::Arg)
    ensures
        arg_model(out) == (ArgModel { long: Some(name@), ..arg_model(arg) }),
{
    arg.long(name.to_owned())
}

/// `clap::Arg::visible_alias`. Trusted: adds one visible alias after those
/// already there, and nothing else.
#[verifier::external_body]
pub(crate) fn arg_visible_alias(arg: clap::Arg, name: &str) -> (out: clap::Arg)
    ensures
        arg_model(out) == (ArgModel {
            visible_aliases: arg_model(arg).visible_aliases.push(name@),
            ..arg_model(arg)
        }),
{
    arg.visible_alias(name.to_owned())
}

/// `clap::Arg::value_name`. Trusted: sets the placeholder of the value, and
/// nothing else.
#[verifier::external_body]
pub(crate) fn arg_value_name(arg: clap::Arg, name: &str) -> (out: clap::Arg)
    ensures
        arg_model(out) == (ArgModel { value_name: Some(name@), ..arg_model(arg) }),
{
    arg.value_name(name.to_owned())
}

/// `clap::Arg::help`. Trusted: sets the help text, and nothing else.
#[verifier::external_body]
pub(crate) fn arg_help(arg: clap::Arg, text: &str) -> (out: clap::Arg)
    ensures
        arg_model(out) == (ArgModel { help: Some(text@), ..arg_model(arg) }),
{
    arg.help(text.to_owned())
}

/// `clap::Arg::action`. Trusted: sets the action, and nothing else.
#[verifier::external_body]
pub(crate) fn arg_action(arg: clap::Arg, action: ArgAction) -> (out: clap::Arg)
    ensures
        arg_model(out) == (ArgModel { action: Some(action), ..arg_model(arg) }),
{
    match action {
        ArgAction::Append => arg.action(clap::ArgAction::Append),
        ArgAction::SetTrue => arg.action(clap::ArgAction::SetTrue),
    }
}

/// `clap::Arg::value_parser` with a list of words. Trusted: the argument
/// accepts the listed words, and nothing else changes.
#[verifier::external_body]
pub(crate) fn arg_possible_values(arg: clap::Arg, words: Vec<&'static str>) -> (out: clap::Arg)
    ensures
        arg_model(out) == (ArgModel {
            values: Some(ValueSet::Listed(words.deep_view())),
            ..arg_model(arg)
        }),
{
    arg.value_parser(words)
}

/// `clap::Arg::value_parser` with the parser of `clap_complete::Shell`.
/// Trusted: the argument accepts the names of the shells, and nothing else
/// changes.
#[verifier::external_body]
pub(crate) fn arg_shell_values(arg: clap::Arg) -> (out: clap::Arg)
    ensures
        arg_model(out) == (ArgModel { values: Some(ValueSet::Shells), ..arg_model(arg) }),
{
    arg.value_parser(clap::builder::EnumValueParser::<clap_complete::Shell>::new())
}

/// `clap::Arg::ignore_case`. Trusted: sets whether values are matched
/// without regard to case, and nothing else.
#[verifier::external_body]
pub(crate) fn arg_ignore_case(arg: clap::Arg, yes: bool) -> (out: clap::Arg)
    ensures
        arg_model(out) == (ArgModel { ignore_case: yes, ..arg_model(arg) }),
{
    arg.ignore_case(yes)
}

/// `clap::Arg::required`. Trusted: sets whether a command line without the
/// argument is an error, and nothing else.
#[verifier::external_body]
pub(crate) fn arg_required(arg: clap::Arg, yes: bool) -> (out: clap::Arg)
    ensures
        arg_model(out) == (ArgModel { required: yes, ..arg_model(arg) }),
{
    arg.required(yes)
}

/// `clap::Arg::global`. Trusted: sets whether subcommands inherit the
/// argument, and nothing else.
#[verifier::external_body]
pub(crate) fn arg_global(arg: clap::Arg, yes: bool) -> (out: clap::Arg)
    ensures
        arg_model(out) == (ArgModel { global: yes, ..arg_model(arg) }),
{
    arg.global(yes)
}

/// `clap::Command::new`. Trusted: the command has the name and nothing else
/// set.
#[verifier::external_body]
pub(crate) fn command_new(name: &str) -> (command: clap::Command)
    ensures
        command_model(command) == new_command(name@),
{
    clap::Command::new(name.to_owned())
}

/// `clap::Command::version`. Trusted: sets the version, and nothing else.
#[verifier::external_body]
pub(crate) fn command_version(command: clap::Command, version: &str) -> (out: clap::Command)
    ensures
        command_model(out) == (CommandModel { version: Some(version@), ..command_model(command) }),
{
    command.version(version.to_owned())
}

/// `clap::Command::about`. Trusted: sets the description, and nothing else.
#[verifier::external_body]
pub(crate) fn command_about(command: clap::Command, about: &str) -> (out: clap::Command)
    ensures
        command_model(out) == (CommandModel { about: Some(about@), ..command_model(command) }),
{
    command.about(about.to_owned())
}

/// `clap::Command::max_term_width`. Trusted: sets the width at which help
/// is wrapped at most, and nothing else.
#[verifier::external_body]
pub(crate) fn command_max_term_width(command: clap::Command, width: usize) -> (out: clap::Command)
    ensures
        command_model(out) == (CommandModel {
            max_term_width: Some(width),
            ..command_model(command)
        }),
{
    command.max_term_width(width)
}

/// `clap::Command::subcommand_required`. Trusted: sets whether a command
/// line without a subcommand is an error, and nothing else.
#[verifier::external_body]
pub(crate) fn command_subcommand_required(command: clap::Command, yes: bool) -> (out:
    clap::Command)
    ensures
        command_model(out) == (CommandModel { subcommand_required: yes, ..command_model(command) }),
{
    command.subcommand_required(yes)
}

/// `clap::Command::arg_required_else_help`. Trusted: sets whether a command
/// line without arguments shows the help and fails, and nothing else.
#[verifier::external_body]
pub(crate) fn command_arg_required_else_help(command: clap::Command, yes: bool) -> (out:
    clap::Command)
    ensures
        command_model(out) == (CommandModel {
            arg_required_else_help: yes,
            ..command_model(command)
        }),
{
    command.arg_required_else_help(yes)
}

/// `clap::Command::arg`. Trusted: adds the argument after those already
/// there, and nothing else.
#[verifier::external_body]
pub(crate) fn command_arg(command: clap::Command, arg: clap::Arg) -> (out: clap::Command)
    ensures
        command_model(out) == (CommandModel {
            args: command_model(command).args.push(arg_model(arg)),
            ..command_model(command)
        }),
{
    command.arg(arg)
}

/// `clap::Command::subcommand`. Trusted: adds the subcommand after those
/// already there, and nothing else.
#[verifier::external_body]
pub(crate) fn command_subcommand(command: clap::Command, subcommand: clap::Command) -> (out:
    clap::Command)
    ensures
        command_model(out) == (CommandModel {
            subcommands: command_model(command).subcommands.push(command_model(subcommand)),
            ..command_model(command)
        }),
{
    command.subcommand(subcommand)
}

} // verus!
