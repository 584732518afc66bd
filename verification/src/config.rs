//! Resolving the configuration of a pool from what the environment holds.
//!
//! The caller reads the variables; the functions here decide. A variable that
//! is not set is `None`.
//!
//! A capacity of zero is refused here, at resolution: a pool that can hold no
//! connection could only ever time out, and is never built.

use crate::capacity::{parse_max_connections, parse_u32, DEFAULT_MAX_CONNECTIONS};
use crate::url::{
    candidate, compose, parse_error_message, parse_error_text, parse_url, text_of, url_parse,
    UrlFragments, UrlOverrides,
};
use env_url::ParseError;
use vstd::prelude::*;

verus! {

/// Why no configuration could be resolved.
#[derive(Debug, PartialEq, Eq)]
pub enum ConfigError {
    /// The variable that holds the connection URL is not set.
    MissingConfig,
    /// The URL, given whole or put together from fragments, is no URL. The
    /// text is what the URL parser had to say.
    ParseError(String),
    /// `MAX_DB_CONNECTIONS` is set, and is no unsigned 32-bit decimal number.
    InvalidMaxConnections,
    /// `MAX_DB_CONNECTIONS` is zero.
    ZeroMaxConnections,
}

/// A failed resolution as plain values.
pub enum ConfigErrorView {
    MissingConfig,
    ParseError(Seq<char>),
    InvalidMaxConnections,
    ZeroMaxConnections,
}

impl View for ConfigError {
    type V = ConfigErrorView;

    open spec fn view(&self) -> ConfigErrorView {
        match self {
            ConfigError::MissingConfig => ConfigErrorView::MissingConfig,
            ConfigError::ParseError(text) => ConfigErrorView::ParseError(text@),
            ConfigError::InvalidMaxConnections => ConfigErrorView::InvalidMaxConnections,
            ConfigError::ZeroMaxConnections => ConfigErrorView::ZeroMaxConnections,
        }
    }
}

impl ConfigError {
    /// The same error once more, for another caller.
    pub fn duplicate(&self) -> (r: ConfigError)
        ensures
            r@ == self@,
    {
        match self {
            ConfigError::MissingConfig => ConfigError::MissingConfig,
            ConfigError::ParseError(text) => ConfigError::ParseError(text.clone()),
            ConfigError::InvalidMaxConnections => ConfigError::InvalidMaxConnections,
            ConfigError::ZeroMaxConnections => ConfigError::ZeroMaxConnections,
        }
    }
}

/// The configuration of a pool: where to connect, and how many connections
/// the pool may hold. The capacity is never zero.
pub struct PoolConfig {
    connection_string: String,
    max_connections: u32,
}

/// A configuration as plain values.
pub struct PoolConfigView {
    pub connection_string: Seq<char>,
    pub max_connections: u32,
}

impl View for PoolConfig {
    type V = PoolConfigView;

    closed spec fn view(&self) -> PoolConfigView {
        PoolConfigView {
            connection_string: self.connection_string@,
            max_connections: self.max_connections,
        }
    }
}

/// The characters of a string slice that may be absent.
pub open spec fn slice_text(value: Option<&str>) -> Option<Seq<char>> {
    match value {
        Some(s) => Some(s@),
        None => None,
    }
}

/// The capacity that the setting `raw` of `MAX_DB_CONNECTIONS` asks for.
pub open spec fn capacity_of(raw: Option<Seq<char>>) -> Result<u32, ConfigErrorView> {
    match raw {
        None => Ok(DEFAULT_MAX_CONNECTIONS),
        Some(text) => match parse_u32(text) {
            None => Err(ConfigErrorView::InvalidMaxConnections),
            Some(n) => if n == 0 {
                Err(ConfigErrorView::ZeroMaxConnections)
            } else {
                Ok(n)
            },
        },
    }
}

/// The configuration that a connection string, or the reason why there is
/// none, and the setting of `MAX_DB_CONNECTIONS` resolve to. A failure to
/// determine the connection string comes before one of the capacity.
pub open spec fn resolution(url: Result<Seq<char>, ConfigErrorView>, raw_max: Option<Seq<char>>)
    -> Result<PoolConfigView, ConfigErrorView> {
    match url {
        Err(e) => Err(e),
        Ok(connection_string) => match capacity_of(raw_max) {
            Err(e) => Err(e),
            Ok(max_connections) => Ok(PoolConfigView { connection_string, max_connections }),
        },
    }
}

/// The connection string in single-variable mode: the variable as it is.
pub open spec fn single_url(url: Option<Seq<char>>) -> Result<Seq<char>, ConfigErrorView> {
    match url {
        Some(text) => Ok(text),
        None => Err(ConfigErrorView::MissingConfig),
    }
}

/// The connection string in composable mode: the serialization of the URL
/// that the candidate parses to, or a parse error with the parser's text.
pub open spec fn parsed_url(parsed: Result<Seq<char>, Seq<char>>) -> Result<
    Seq<char>,
    ConfigErrorView,
> {
    match parsed {
        Ok(text) => Ok(text),
        Err(reason) => Err(ConfigErrorView::ParseError(reason)),
    }
}

/// A connection string, or the reason why there is none, as plain values.
pub open spec fn found_url(url: Result<String, ConfigError>) -> Result<Seq<char>, ConfigErrorView> {
    match url {
        Ok(text) => Ok(text@),
        Err(e) => Err(e@),
    }
}

/// A capacity, or the reason why there is none, as plain values.
pub open spec fn found_capacity(r: Result<u32, ConfigError>) -> Result<u32, ConfigErrorView> {
    match r {
        Ok(n) => Ok(n),
        Err(e) => Err(e@),
    }
}

/// `r` is the outcome `expected`, taken by its view.
pub open spec fn resolves_to(
    r: Result<PoolConfig, ConfigError>,
    expected: Result<PoolConfigView, ConfigErrorView>,
) -> bool {
    match r {
        Ok(config) => expected == Ok::<PoolConfigView, ConfigErrorView>(config@),
        Err(e) => expected == Err::<PoolConfigView, ConfigErrorView>(e@),
    }
}

impl PoolConfig {
    #[verifier::type_invariant]
    spec fn holds_a_connection(&self) -> bool {
        self.max_connections > 0
    }

    /// A configuration from its two values; `None` for a capacity of zero.
    pub fn new(connection_string: String, max_connections: u32) -> (r: Option<PoolConfig>)
        ensures
            r is Some <==> max_connections > 0,
            r matches Some(config) ==> config@ == (PoolConfigView {
                connection_string: connection_string@,
                max_connections,
            }),
    {
        if max_connections == 0 {
            None
        } else {
            Some(PoolConfig { connection_string, max_connections })
        }
    }

    /// Where the pool connects to.
    pub fn connection_string(&self) -> (r: &str)
        ensures
            r@ == self@.connection_string,
    {
        self.connection_string.as_str()
    }

    /// How many connections the pool may hold.
    pub fn max_connections(&self) -> (r: u32)
        ensures
            r == self@.max_connections,
            r > 0,
    {
        proof {
            use_type_invariant(self);
        }
        self.max_connections
    }
}

/// Decides the capacity of the pool from the setting of `MAX_DB_CONNECTIONS`.
pub fn resolve_max_connections(raw: Option<&str>) -> (r: Result<u32, ConfigError>)
    ensures
        found_capacity(r) == capacity_of(slice_text(raw)),
        r matches Ok(n) ==> n > 0,
        raw is None ==> r == Ok::<u32, ConfigError>(DEFAULT_MAX_CONNECTIONS),
{
    match raw {
        None => Ok(DEFAULT_MAX_CONNECTIONS),
        Some(text) => match parse_max_connections(text) {
            None => Err(ConfigError::InvalidMaxConnections),
            Some(n) => if n == 0 {
                Err(ConfigError::ZeroMaxConnections)
            } else {
                Ok(n)
            },
        },
    }
}

/// Puts a configuration together from a connection string, or the reason
/// why there is none, and the setting of `MAX_DB_CONNECTIONS`.
pub fn resolve_with(url: Result<String, ConfigError>, raw_max: Option<&str>) -> (r: Result<
    PoolConfig,
    ConfigError,
>)
    ensures
        resolves_to(r, resolution(found_url(url), slice_text(raw_max))),
{
    match url {
        Err(e) => Err(e),
        Ok(connection_string) => match resolve_max_connections(raw_max) {
            Err(e) => Err(e),
            Ok(max_connections) => Ok(PoolConfig { connection_string, max_connections }),
        },
    }
}

/// Resolves a configuration in single-variable mode: `url` is the variable
/// that holds the connection URL, taken as it is.
pub fn resolve(url: Option<String>, raw_max: Option<&str>) -> (r: Result<PoolConfig, ConfigError>)
    ensures
        resolves_to(r, resolution(single_url(text_of(url)), slice_text(raw_max))),
        url is None ==> r is Err && r->Err_0@ == ConfigErrorView::MissingConfig,
{
    let found = match url {
        Some(s) => Ok(s),
        None => Err(ConfigError::MissingConfig),
    };
    resolve_with(found, raw_max)
}

/// What the outcome of parsing the candidate means for the connection
/// string: the serialization on success, and on failure a parse error that
/// carries what the parser's error says.
pub fn connection_string_of(parsed: Result<String, ParseError>) -> (r: Result<String, ConfigError>)
    ensures
        match parsed {
            Ok(s) => r is Ok && r->Ok_0@ == s@,
            Err(e) => r is Err && r->Err_0@ == ConfigErrorView::ParseError(parse_error_text(e)),
        },
{
    match parsed {
        Ok(s) => Ok(s),
        Err(e) => Err(ConfigError::ParseError(parse_error_message(&e))),
    }
}

/// Resolves a configuration in composable mode: the connection string is
/// the serialization of the URL that the defaults of the backend spell once
/// the overrides of the environment are applied.
pub fn resolve_composed(defaults: &UrlFragments, env: &UrlOverrides, raw_max: Option<&str>) -> (r:
    Result<PoolConfig, ConfigError>)
    ensures
        resolves_to(
            r,
            resolution(parsed_url(url_parse(candidate(defaults@, env@))), slice_text(raw_max)),
        ),
        url_parse(candidate(defaults@, env@)) is Err ==> r is Err && r->Err_0@
            == ConfigErrorView::ParseError(url_parse(candidate(defaults@, env@))->Err_0),
{
    let text = compose(defaults, env);
    let parsed = parse_url(text.as_str());
    resolve_with(connection_string_of(parsed), raw_max)
}

/// Where `MAX_DB_CONNECTIONS` is not set, a configuration has room for
/// twenty connections.
pub proof fn lemma_unset_capacity_is_default(connection_string: Seq<char>)
    ensures
        resolution(Ok(connection_string), None) == Ok::<PoolConfigView, ConfigErrorView>(
            PoolConfigView { connection_string, max_connections: 20 },
        ),
{
}

/// A capacity of zero is refused, however it is written: there is no
/// configuration, and so no pool, for it.
pub proof fn lemma_zero_capacity_is_refused(connection_string: Seq<char>, raw: Seq<char>)
    requires
        parse_u32(raw) == Some(0u32),
    ensures
        capacity_of(Some(raw)) == Err::<u32, ConfigErrorView>(ConfigErrorView::ZeroMaxConnections),
        resolution(Ok(connection_string), Some(raw)) == Err::<PoolConfigView, ConfigErrorView>(
            ConfigErrorView::ZeroMaxConnections,
        ),
{
}

/// The text `0` is a capacity of zero.
pub proof fn lemma_zero_literal()
    ensures
        parse_u32("0"@) == Some(0u32),
{
    reveal_strlit("0");
    let zero = "0"@;
    assert(crate::capacity::unsigned_body(zero) == zero);
    assert(zero.drop_last().len() == 0);
    assert(crate::capacity::digits_value(zero) == 0) by {
        reveal_with_fuel(crate::capacity::digits_value, 2);
    }
}

/// Without a connection string there is no configuration, whatever the
/// capacity: a missing variable gives `MissingConfig`, a candidate that is no
/// URL gives `ParseError` with the parser's text.
pub proof fn lemma_no_url_no_configuration(raw_max: Option<Seq<char>>, reason: Seq<char>)
    ensures
        resolution(single_url(None), raw_max) == Err::<PoolConfigView, ConfigErrorView>(
            ConfigErrorView::MissingConfig,
        ),
        resolution(parsed_url(Err(reason)), raw_max) == Err::<PoolConfigView, ConfigErrorView>(
            ConfigErrorView::ParseError(reason),
        ),
{
}

/// Every configuration that is resolved has room for a connection.
pub proof fn lemma_resolution_has_room(
    url: Result<Seq<char>, ConfigErrorView>,
    raw_max: Option<Seq<char>>,
)
    ensures
        resolution(url, raw_max) matches Ok(config) ==> config.max_connections > 0,
{
}

} // verus!
