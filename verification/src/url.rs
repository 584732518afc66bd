//! Connection strings put together from fragments.
//!
//! A backend has a default URL, held here as its fragments. The environment
//! may replace the host, the port, the path and the user information one by
//! one, or give the whole URL at once. What comes out of that is a candidate,
//! a string; the connection string is the serialization of the URL that the
//! candidate parses to.

use env_url::{ParseError, Url};
use vstd::prelude::*;
use vstd::string::*;

verus! {

/// The parts of a URL of the form
/// `scheme://userinfo@host:port/path?query`, each as it is written in the
/// URL. An empty `userinfo` or `query` is left out together with its `@` or
/// `?`; the `:` before the port is always written.
pub struct UrlFragments {
    pub scheme: String,
    pub userinfo: String,
    pub host: String,
    pub port: String,
    pub path: String,
    pub query: String,
}

/// What the environment says about the URL of a service. `None` stands for a
/// variable that is not set.
pub struct UrlOverrides {
    /// The whole URL. Where it is set, nothing else is looked at.
    pub url: Option<String>,
    pub host: Option<String>,
    pub port: Option<String>,
    pub path: Option<String>,
    pub userinfo: Option<String>,
}

/// The fragments of a URL as sequences of characters.
pub struct FragmentsView {
    pub scheme: Seq<char>,
    pub userinfo: Seq<char>,
    pub host: Seq<char>,
    pub port: Seq<char>,
    pub path: Seq<char>,
    pub query: Seq<char>,
}

/// The settings of the environment as sequences of characters.
pub struct OverridesView {
    pub url: Option<Seq<char>>,
    pub host: Option<Seq<char>>,
    pub port: Option<Seq<char>>,
    pub path: Option<Seq<char>>,
    pub userinfo: Option<Seq<char>>,
}

/// The characters of a string that may be absent.
pub open spec fn text_of(value: Option<String>) -> Option<Seq<char>> {
    match value {
        Some(s) => Some(s@),
        None => None,
    }
}

impl View for UrlFragments {
    type V = FragmentsView;

    open spec fn view(&self) -> FragmentsView {
        FragmentsView {
            scheme: self.scheme@,
            userinfo: self.userinfo@,
            host: self.host@,
            port: self.port@,
            path: self.path@,
            query: self.query@,
        }
    }
}

impl View for UrlOverrides {
    type V = OverridesView;

    open spec fn view(&self) -> OverridesView {
        OverridesView {
            url: text_of(self.url),
            host: text_of(self.host),
            port: text_of(self.port),
            path: text_of(self.path),
            userinfo: text_of(self.userinfo),
        }
    }
}

/// `value` where the environment sets it, else `default`.
pub open spec fn or_default(value: Option<Seq<char>>, default: Seq<char>) -> Seq<char> {
    match value {
        Some(s) => s,
        None => default,
    }
}

/// The default fragments with each one replaced that the environment sets.
/// The scheme and the query are fixed by the backend.
pub open spec fn overridden(defaults: FragmentsView, env: OverridesView) -> FragmentsView {
    FragmentsView {
        scheme: defaults.scheme,
        userinfo: or_default(env.userinfo, defaults.userinfo),
        host: or_default(env.host, defaults.host),
        port: or_default(env.port, defaults.port),
        path: or_default(env.path, defaults.path),
        query: defaults.query,
    }
}

/// The URL that the fragments spell.
pub open spec fn composed(f: FragmentsView) -> Seq<char> {
    let credentials = if f.userinfo.len() == 0 {
        Seq::<char>::empty()
    } else {
        f.userinfo + seq!['@']
    };
    let search = if f.query.len() == 0 {
        Seq::<char>::empty()
    } else {
        seq!['?'] + f.query
    };
    f.scheme + seq![':', '/', '/'] + credentials + f.host + seq![':'] + f.port + f.path + search
}

/// The string that is handed to the URL parser: the whole URL where the
/// environment gives one, else the URL that the overridden defaults spell.
pub open spec fn candidate(defaults: FragmentsView, env: OverridesView) -> Seq<char> {
    match env.url {
        Some(url) => url,
        None => composed(overridden(defaults, env)),
    }
}

/// What parsing `input` as an absolute URL ends with: the serialization of
/// the URL, or what the parser's error says where `input` is no such URL.
pub uninterp spec fn url_parse(input: Seq<char>) -> Result<Seq<char>, Seq<char>>;

/// What an error of the URL parser says when it is displayed.
pub uninterp spec fn parse_error_text(error: ParseError) -> Seq<char>;

/// The outcome of the URL parser as text: the serialization of the URL, or
/// what the error says.
pub open spec fn parsed_text(r: Result<String, ParseError>) -> Result<Seq<char>, Seq<char>> {
    match r {
        Ok(url) => Ok(url@),
        Err(error) => Err(parse_error_text(error)),
    }
}

/// `env_url::ParseError`, the reason why a string is no URL.
#[verifier::external_type_specification]
#[verifier::external_body]
pub struct ExParseError(ParseError);

/// `env_url::Url::parse`, with the URL that it returns turned into a
/// `String`, which is the URL's serialization. Parsing reads nothing but its
/// input; it fails without touching the network.
#[verifier::external_body]
pub(crate) fn parse_url(input: &str) -> (r: Result<String, ParseError>)
    ensures
        parsed_text(r) == url_parse(input@),
{
    Url::parse(input).map(String::from)
}

/// The `Display` text of an error of the URL parser, through `to_string`.
#[verifier::external_body]
pub(crate) fn parse_error_message(error: &ParseError) -> (text: String)
    ensures
        text@ == parse_error_text(*error),
{
    error.to_string()
}

fn pick<'a>(value: &'a Option<String>, default: &'a String) -> (r: &'a str)
    ensures
        r@ == or_default(text_of(*value), default@),
{
    match value {
        Some(s) => s.as_str(),
        None => default.as_str(),
    }
}

/// Spells the URL of the default fragments with the overrides of the
/// environment applied, or hands back the whole URL that the environment
/// gives.
pub fn compose(defaults: &UrlFragments, env: &UrlOverrides) -> (r: String)
    ensures
        r@ == candidate(defaults@, env@),
{
    if let Some(url) = &env.url {
        return url.clone();
    }
    let userinfo = pick(&env.userinfo, &defaults.userinfo);
    let host = pick(&env.host, &defaults.host);
    let port = pick(&env.port, &defaults.port);
    let path = pick(&env.path, &defaults.path);
    proof {
        reveal_strlit("://");
        reveal_strlit("@");
        reveal_strlit(":");
        reveal_strlit("?");
    }
    let mut out = defaults.scheme.clone();
    out.append("://");
    assert(out@ =~= defaults.scheme@ + seq![':', '/', '/']);
    let ghost credentials = if userinfo@.len() == 0 {
        Seq::<char>::empty()
    } else {
        userinfo@ + seq!['@']
    };
    if !userinfo.is_empty() {
        out.append(userinfo);
        out.append("@");
    }
    assert(out@ =~= defaults.scheme@ + seq![':', '/', '/'] + credentials);
    out.append(host);
    out.append(":");
    out.append(port);
    out.append(path);
    if !defaults.query.as_str().is_empty() {
        out.append("?");
        out.append(defaults.query.as_str());
    }
    assert(out@ =~= composed(overridden(defaults@, env@)));
    out
}

} // verus!
