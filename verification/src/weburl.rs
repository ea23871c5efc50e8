//! Absolute URLs, as far as the library reads them: the serialization, the host and the
//! path. Parsing and resolving are the work of the `url` crate.

use vstd::prelude::*;
use crate::models::opt_text;

verus! {

/// What the library reads of an absolute URL.
#[derive(Debug)]
pub struct WebUrl {
    /// The serialization of the whole URL.
    pub href: String,
    /// The host, where the URL has one.
    pub host: Option<String>,
    /// The path, percent-encoded.
    pub path: String,
}

pub struct WebUrlView {
    pub href: Seq<char>,
    pub host: Option<Seq<char>>,
    pub path: Seq<char>,
}

impl View for WebUrl {
    type V = WebUrlView;

    open spec fn view(&self) -> WebUrlView {
        WebUrlView { href: self.href@, host: opt_text(self.host), path: self.path@ }
    }
}

/// The view of an optional URL.
pub open spec fn opt_url(url: Option<WebUrl>) -> Option<WebUrlView> {
    match url {
        Some(u) => Some(u@),
        None => None,
    }
}

/// The absolute URL that `input` denotes, or `None` where it denotes none.
pub uninterp spec fn url_parsed(input: Seq<char>) -> Option<WebUrlView>;

/// The URL that `reference` denotes relative to the absolute URL that `base` denotes, or
/// `None` where either fails to parse.
pub uninterp spec fn url_joined(base: Seq<char>, reference: Seq<char>) -> Option<WebUrlView>;

/// `url::Url::parse`: the serialization, host and path of the URL parsed from `input`,
/// or `None` where the parser reports an error.
#[verifier::external_body]
fn parse_url(input: &str) -> (r: Option<WebUrl>)
    ensures
        opt_url(r) == url_parsed(input@),
{
    url::Url::parse(input).ok().map(|u| WebUrl {
        href: u.as_str().to_string(),
        host: u.host_str().map(String::from),
        path: u.path().to_string(),
    })
}

/// `url::Url::join`, on the URL parsed from `base`: the serialization, host and path of
/// the URL that `reference` resolves to, or `None` where the parser reports an error for
/// either.
#[verifier::external_body]
fn join_url(base: &str, reference: &str) -> (r: Option<WebUrl>)
    ensures
        opt_url(r) == url_joined(base@, reference@),
{
    url::Url::parse(base).and_then(|b| b.join(reference)).ok().map(|u| WebUrl {
        href: u.as_str().to_string(),
        host: u.host_str().map(String::from),
        path: u.path().to_string(),
    })
}

impl WebUrl {
    /// Parses an absolute URL.
    pub fn parse(input: &str) -> (r: Option<WebUrl>)
        ensures
            opt_url(r) == url_parsed(input@),
    {
        parse_url(input)
    }

    /// Resolves `reference` against the absolute URL `base`.
    pub fn resolve(base: &str, reference: &str) -> (r: Option<WebUrl>)
        ensures
            opt_url(r) == url_joined(base@, reference@),
    {
        join_url(base, reference)
    }

    /// Whether this URL and `other` have the same host, or both none.
    pub fn same_host(&self, other: &WebUrl) -> (r: bool)
        ensures
            r == (self@.host == other@.host),
    {
        match (&self.host, &other.host) {
            (Some(a), Some(b)) => *a == *b,
            (None, None) => true,
            _ => false,
        }
    }

    /// Whether this URL and `other` have the same path.
    pub fn same_path(&self, other: &WebUrl) -> (r: bool)
        ensures
            r == (self@.path == other@.path),
    {
        self.path == other.path
    }
}

} // verus!
