//! What a parsed command line says, read out of `clap::ArgMatches` into
//! plain values.

use crate::config::{Overrides, OverridesView};
use vstd::prelude::*;

verus! {

/// Makes `clap::ArgMatches` known as an opaque type.
#[verifier::external_type_specification]
#[verifier::external_body]
pub struct ExArgMatches(clap::ArgMatches);

/// The string values held under each argument id that has string values.
pub uninterp spec fn matched_strings(matches: clap::ArgMatches) -> Map<Seq<char>, Seq<Seq<char>>>;

/// The boolean value held under each argument id that has one.
pub uninterp spec fn matched_flags(matches: clap::ArgMatches) -> Map<Seq<char>, bool>;

/// The name of the subcommand that was selected, if one was.
pub uninterp spec fn matched_subcommand(matches: clap::ArgMatches) -> Option<Seq<char>>;

/// The first string held under the id, if there is one.
pub open spec fn first_string(strings: Map<Seq<char>, Seq<Seq<char>>>, id: Seq<char>) -> Option<
    Seq<char>,
> {
    if strings.contains_key(id) && strings[id].len() > 0 {
        Some(strings[id][0])
    } else {
        None
    }
}

/// All strings held under the id, if the id holds strings.
pub open spec fn all_strings(strings: Map<Seq<char>, Seq<Seq<char>>>, id: Seq<char>) -> Option<
    Seq<Seq<char>>,
> {
    if strings.contains_key(id) {
        Some(strings[id])
    } else {
        None
    }
}

/// The boolean held under the id, if there is one.
pub open spec fn flag_value(flags: Map<Seq<char>, bool>, id: Seq<char>) -> Option<bool> {
    if flags.contains_key(id) {
        Some(flags[id])
    } else {
        None
    }
}

/// `clap::ArgMatches::try_get_one::<String>`, with an access that clap
/// refuses read as an absent value. Trusted: the result is the first of the
/// strings held under the id.
#[verifier::external_body]
pub(crate) fn get_one_string(matches: &clap::ArgMatches, id: &str) -> (value: Option<String>)
    ensures
        value.deep_view() == first_string(matched_strings(*matches), id@),
{
    matches.try_get_one::<String>(id).ok().flatten().cloned()
}

/// `clap::ArgMatches::try_get_many::<String>`, with an access that clap
/// refuses read as an absent value. Trusted: the result holds all strings
/// held under the id, in their order.
#[verifier::external_body]
pub(crate) fn get_many_strings(matches: &clap::ArgMatches, id: &str) -> (values: Option<
    Vec<String>,
>)
    ensures
        values.deep_view() == all_strings(matched_strings(*matches), id@),
{
    matches.try_get_many::<String>(id).ok().flatten().map(|values| values.cloned().collect())
}

/// `clap::ArgMatches::try_get_one::<bool>`, the access behind `get_flag`,
/// with an access that clap refuses read as an absent value. Trusted: the
/// result is the boolean held under the id.
#[verifier::external_body]
pub(crate) fn get_flag(matches: &clap::ArgMatches, id: &str) -> (value: Option<bool>)
    ensures
        value == flag_value(matched_flags(*matches), id@),
{
    matches.try_get_one::<bool>(id).ok().flatten().copied()
}

/// `clap::ArgMatches::subcommand_name`. Trusted: the result is the name of
/// the selected subcommand.
#[verifier::external_body]
pub(crate) fn subcommand_name(matches: &clap::ArgMatches) -> (name: Option<String>)
    ensures
        name.deep_view() == matched_subcommand(*matches),
{
    matches.subcommand_name().map(|name| name.to_owned())
}

/// What one command line says: the global flags, the log level as typed,
/// and the name of the selected subcommand.
#[derive(Clone, Debug, PartialEq, Eq)]
pub struct Invocation {
    pub overrides: Overrides,
    /// The value of `--log-level`, as typed.
    pub log_level: Option<String>,
    /// The name of the selected subcommand.
    pub subcommand: Option<String>,
}

/// The mathematical value of an [`Invocation`].
pub struct InvocationView {
    pub overrides: OverridesView,
    pub log_level: Option<Seq<char>>,
    pub subcommand: Option<Seq<char>>,
}

impl View for Invocation {
    type V = InvocationView;

    open spec fn view(&self) -> InvocationView {
        InvocationView {
            overrides: self.overrides@,
            log_level: self.log_level.deep_view(),
            subcommand: self.subcommand.deep_view(),
        }
    }
}

/// The overrides that the matched arguments hold. An argument that was not
/// given overrides nothing.
pub open spec fn overrides_of(
    strings: Map<Seq<char>, Seq<Seq<char>>>,
    flags: Map<Seq<char>, bool>,
) -> OverridesView {
    OverridesView {
        api_key: first_string(strings, "api_key"@),
        auth_token: first_string(strings, "auth_token"@),
        url: first_string(strings, "url"@),
        headers: match all_strings(strings, "headers"@) {
            Some(headers) => headers,
            None => Seq::empty(),
        },
        quiet: flag_value(flags, "quiet"@) == Some(true),
        allow_failure: flag_value(flags, "allow_failure"@) == Some(true),
    }
}

/// The invocation that the matched arguments and subcommand hold.
pub open spec fn invocation_of(
    strings: Map<Seq<char>, Seq<Seq<char>>>,
    flags: Map<Seq<char>, bool>,
    subcommand: Option<Seq<char>>,
) -> InvocationView {
    InvocationView {
        overrides: overrides_of(strings, flags),
        log_level: first_string(strings, "log_level"@),
        subcommand,
    }
}

impl Overrides {
    /// Reads the global flags out of the matches.
    pub fn read(matches: &clap::ArgMatches) -> (overrides: Overrides)
        ensures
            overrides@ == overrides_of(matched_strings(*matches), matched_flags(*matches)),
    {
        let headers = match get_many_strings(matches, "headers") {
            Some(headers) => headers,
            None => Vec::new(),
        };
        let quiet = match get_flag(matches, "quiet") {
            Some(quiet) => quiet,
            None => false,
        };
        let allow_failure = match get_flag(matches, "allow_failure") {
            Some(allow_failure) => allow_failure,
            None => false,
        };
        let overrides = Overrides {
            api_key: get_one_string(matches, "api_key"),
            auth_token: get_one_string(matches, "auth_token"),
            url: get_one_string(matches, "url"),
            headers,
            quiet,
            allow_failure,
        };
        assert(overrides@.headers =~= overrides_of(
            matched_strings(*matches),
            matched_flags(*matches),
        ).headers);
        overrides
    }
}

impl Invocation {
    /// Reads the invocation out of the matches.
    pub fn read(matches: &clap::ArgMatches) -> (invocation: Invocation)
        ensures
            invocation@ == invocation_of(
                matched_strings(*matches),
                matched_flags(*matches),
                matched_subcommand(*matches),
            ),
    {
        Invocation {
            overrides: Overrides::read(matches),
            log_level: get_one_string(matches, "log_level"),
            subcommand: subcommand_name(matches),
        }
    }
}

} // verus!
