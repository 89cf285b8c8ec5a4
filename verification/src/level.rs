//! Log verbosity levels and their textual names.

use vstd::prelude::*;

verus! {

/// A verbosity threshold, from silent to most detailed.
#[derive(Clone, Copy, Debug, PartialEq, Eq, Structural)]
pub enum LevelFilter {
    Off,
    Error,
    Warn,
    Info,
    Debug,
    Trace,
}

/// Whether `given` is `letter`, or the upper-case form of it. `letter` is
/// meant to be a lower-case ASCII letter.
pub open spec fn folds_to(given: char, letter: char) -> bool {
    given == letter || ('A' <= given <= 'Z' && given as int + 32 == letter as int)
}

/// Whether `text` spells the lower-case ASCII word `name`, ignoring ASCII
/// case.
pub open spec fn spells(text: Seq<char>, name: Seq<char>) -> bool {
    &&& text.len() == name.len()
    &&& forall|i: int| 0 <= i < name.len() ==> folds_to(#[trigger] text[i], name[i])
}

/// The level that `text` names, ignoring ASCII case, if it names one.
pub open spec fn level_named(text: Seq<char>) -> Option<LevelFilter> {
    if spells(text, "off"@) {
        Some(LevelFilter::Off)
    } else if spells(text, "error"@) {
        Some(LevelFilter::Error)
    } else if spells(text, "warn"@) {
        Some(LevelFilter::Warn)
    } else if spells(text, "info"@) {
        Some(LevelFilter::Info)
    } else if spells(text, "debug"@) {
        Some(LevelFilter::Debug)
    } else if spells(text, "trace"@) {
        Some(LevelFilter::Trace)
    } else {
        None
    }
}

/// Calls `log::LevelFilter::from_str` through `str::parse`. It compares `text` with the names
/// `OFF`, `ERROR`, `WARN`, `INFO`, `DEBUG` and `TRACE` by
/// `eq_ignore_ascii_case` and fails where none matches. Trusted: the result
/// is the level that `text` names.
#[verifier::external_body]
fn parse_level_filter(text: &str) -> (level: Option<LevelFilter>)
    ensures
        level == level_named(text@),
{
    match text.parse::<log::LevelFilter>() {
        Ok(log::LevelFilter::Off) => Some(LevelFilter::Off),
        Ok(log::LevelFilter::Error) => Some(LevelFilter::Error),
        Ok(log::LevelFilter::Warn) => Some(LevelFilter::Warn),
        Ok(log::LevelFilter::Info) => Some(LevelFilter::Info),
        Ok(log::LevelFilter::Debug) => Some(LevelFilter::Debug),
        Ok(log::LevelFilter::Trace) => Some(LevelFilter::Trace),
        Err(_) => None,
    }
}

/// The level that a command line may ask for: any named level but `Off`.
pub open spec fn requested_level(text: Seq<char>) -> Option<LevelFilter> {
    match level_named(text) {
        Some(LevelFilter::Off) => None,
        other => other,
    }
}

impl LevelFilter {
    /// Reads a level from its name, ignoring ASCII case. Only `error`,
    /// `warn`, `info`, `debug` and `trace` are levels that can be asked for.
    pub fn parse(text: &str) -> (level: Option<LevelFilter>)
        ensures
            level == requested_level(text@),
    {
        match parse_level_filter(text) {
            Some(LevelFilter::Off) => None,
            other => other,
        }
    }
}

} // verus!
