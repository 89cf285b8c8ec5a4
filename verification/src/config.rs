//! The resolved configuration and the overrides a command line applies to it.

use crate::level::LevelFilter;
use vstd::prelude::*;

verus! {

/// The credentials used to authenticate outbound requests: an API key or an
/// auth token, never both.
#[derive(Clone, Debug, PartialEq, Eq)]
pub enum Auth {
    Key(String),
    Token(String),
}

/// The mathematical value of an [`Auth`].
pub enum AuthView {
    Key(Seq<char>),
    Token(Seq<char>),
}

impl View for Auth {
    type V = AuthView;

    open spec fn view(&self) -> AuthView {
        match self {
            Auth::Key(key) => AuthView::Key(key@),
            Auth::Token(token) => AuthView::Token(token@),
        }
    }
}

/// What the global flags of one command line say, as plain values.
#[derive(Clone, Debug, PartialEq, Eq)]
pub struct Overrides {
    /// The value of `--api-key`.
    pub api_key: Option<String>,
    /// The value of `--auth-token`.
    pub auth_token: Option<String>,
    /// The value of `--url`.
    pub url: Option<String>,
    /// The values of `--header`, in the order given.
    pub headers: Vec<String>,
    /// Whether `--quiet` or `--silent` was given. It goes to the quiet mode of
    /// the process, not into the configuration.
    pub quiet: bool,
    /// Whether `--allow-failure` was given. It decides, beside the
    /// configuration, whether a failure ends in exit code zero; it is not
    /// written into the configuration.
    pub allow_failure: bool,
}

/// The mathematical value of an [`Overrides`].
pub struct OverridesView {
    pub api_key: Option<Seq<char>>,
    pub auth_token: Option<Seq<char>>,
    pub url: Option<Seq<char>>,
    pub headers: Seq<Seq<char>>,
    pub quiet: bool,
    pub allow_failure: bool,
}

impl View for Overrides {
    type V = OverridesView;

    open spec fn view(&self) -> OverridesView {
        OverridesView {
            api_key: self.api_key.deep_view(),
            auth_token: self.auth_token.deep_view(),
            url: self.url.deep_view(),
            headers: self.headers.deep_view(),
            quiet: self.quiet,
            allow_failure: self.allow_failure,
        }
    }
}

/// The configuration that every subcommand reads.
#[derive(Clone, Debug, PartialEq, Eq)]
pub struct Config {
    pub base_url: String,
    /// The credentials, where there are any.
    pub auth: Option<Auth>,
    /// Extra request headers, each a `key:value` string.
    pub headers: Vec<String>,
    pub log_level: Option<LevelFilter>,
    pub quiet: bool,
    pub allow_failure: bool,
}

/// The mathematical value of a [`Config`].
pub struct ConfigView {
    pub base_url: Seq<char>,
    pub auth: Option<AuthView>,
    pub headers: Seq<Seq<char>>,
    pub log_level: Option<LevelFilter>,
    pub quiet: bool,
    pub allow_failure: bool,
}

impl View for Config {
    type V = ConfigView;

    open spec fn view(&self) -> ConfigView {
        ConfigView {
            base_url: self.base_url@,
            auth: match self.auth {
                Some(auth) => Some(auth@),
                None => None,
            },
            headers: self.headers.deep_view(),
            log_level: self.log_level,
            quiet: self.quiet,
            allow_failure: self.allow_failure,
        }
    }
}

/// The credentials after the overrides: a token beats a key, and either
/// beats what was there before.
pub open spec fn overridden_auth(base: Option<AuthView>, overrides: OverridesView) -> Option<
    AuthView,
> {
    match (overrides.auth_token, overrides.api_key) {
        (Some(token), _) => Some(AuthView::Token(token)),
        (None, Some(key)) => Some(AuthView::Key(key)),
        (None, None) => base,
    }
}

/// The configuration after the overrides of a command line. Credentials and
/// URL keep their values unless the command line says otherwise; headers are
/// added after those already there. The log level, the quiet mode and the
/// allow-failure setting stay as they are, whatever the flags say.
pub open spec fn overridden(base: ConfigView, overrides: OverridesView) -> ConfigView {
    ConfigView {
        base_url: match overrides.url {
            Some(url) => url,
            None => base.base_url,
        },
        auth: overridden_auth(base.auth, overrides),
        headers: base.headers + overrides.headers,
        log_level: base.log_level,
        quiet: base.quiet,
        allow_failure: base.allow_failure,
    }
}

impl Config {
    /// Replaces the credentials. Setting one kind clears the other.
    pub fn set_auth(&mut self, auth: Auth)
        ensures
            final(self)@ == (ConfigView { auth: Some(auth@), ..old(self)@ }),
    {
        self.auth = Some(auth);
    }

    /// Replaces the base URL.
    pub fn set_base_url(&mut self, url: &str)
        ensures
            final(self)@ == (ConfigView { base_url: url@, ..old(self)@ }),
    {
        self.base_url = url.to_owned();
    }

    /// Adds `headers`, in their order, after the headers already there.
    pub fn add_headers(&mut self, headers: &Vec<String>)
        ensures
            final(self)@ == (ConfigView {
                headers: old(self)@.headers + headers.deep_view(),
                ..old(self)@
            }),
    {
        let mut i: usize = 0;
        while i < headers.len()
            invariant
                i <= headers.len(),
                self.headers.deep_view() == old(self)@.headers + headers.deep_view().take(i as int),
                self@ == (ConfigView { headers: self@.headers, ..old(self)@ }),
            decreases headers.len() - i,
        {
            let ghost before = self.headers.deep_view();
            let header = headers[i].clone();
            self.headers.push(header);
            assert(self.headers.deep_view() =~= before.push(headers[i as int]@));
            i += 1;
        }
        assert(headers.deep_view().take(i as int) =~= headers.deep_view());
    }

    /// Sets the log level.
    pub fn set_log_level(&mut self, level: LevelFilter)
        ensures
            final(self)@ == (ConfigView { log_level: Some(level), ..old(self)@ }),
    {
        self.log_level = Some(level);
    }

    /// Applies the overrides of a command line: first the API key, then the
    /// auth token, so that the token wins where both are given; then the URL;
    /// then the headers, which are added and replace nothing. Nothing else
    /// changes.
    pub fn apply(&mut self, overrides: &Overrides)
        ensures
            final(self)@ == overridden(old(self)@, overrides@),
    {
        if let Some(key) = &overrides.api_key {
            self.set_auth(Auth::Key(key.clone()));
        }
        if let Some(token) = &overrides.auth_token {
            self.set_auth(Auth::Token(token.clone()));
        }
        if let Some(url) = &overrides.url {
            self.set_base_url(url.as_str());
        }
        self.add_headers(&overrides.headers);
    }
}

} // verus!
