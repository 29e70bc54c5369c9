//! What the address parsers of the `url` and `hyper` crates make of a text, as
//! plain values.

use vstd::prelude::*;

verus! {

/// A parsed URL, taken apart.
#[derive(Debug, PartialEq, Eq)]
pub struct UrlParts {
    pub scheme: String,
    pub username: String,
    pub password: Option<String>,
    pub host: Option<String>,
    pub port: Option<u16>,
    pub path: String,
    pub query: Option<String>,
    pub fragment: Option<String>,
}

/// The model of a [`UrlParts`].
pub struct UrlView {
    pub scheme: Seq<char>,
    pub username: Seq<char>,
    pub password: Option<Seq<char>>,
    pub host: Option<Seq<char>>,
    pub port: Option<u16>,
    pub path: Seq<char>,
    pub query: Option<Seq<char>>,
    pub fragment: Option<Seq<char>>,
}

/// The characters of a text that may be missing.
pub open spec fn text_view(text: Option<String>) -> Option<Seq<char>> {
    match text {
        Some(text) => Some(text@),
        None => None,
    }
}

impl View for UrlParts {
    type V = UrlView;

    open spec fn view(&self) -> UrlView {
        UrlView {
            scheme: self.scheme@,
            username: self.username@,
            password: text_view(self.password),
            host: text_view(self.host),
            port: self.port,
            path: self.path@,
            query: text_view(self.query),
            fragment: text_view(self.fragment),
        }
    }
}

/// A request target.
#[derive(Debug, PartialEq, Eq)]
pub struct HttpUri {
    /// The target, written out again.
    pub text: String,
    pub has_scheme: bool,
    /// Host and port, where the target names them.
    pub authority: Option<String>,
}

/// The model of an [`HttpUri`].
pub struct UriView {
    pub text: Seq<char>,
    pub has_scheme: bool,
    pub authority: Option<Seq<char>>,
}

impl View for HttpUri {
    type V = UriView;

    open spec fn view(&self) -> UriView {
        UriView {
            text: self.text@,
            has_scheme: self.has_scheme,
            authority: text_view(self.authority),
        }
    }
}

/// The model of a target that may be missing.
pub open spec fn uri_view(uri: Option<HttpUri>) -> Option<UriView> {
    match uri {
        Some(uri) => Some(uri@),
        None => None,
    }
}

/// The parts of the URL that `url::Url::parse` reads from a text, or the message
/// of its error.
pub uninterp spec fn url_parsed(text: Seq<char>) -> Result<UrlView, Seq<char>>;

/// The URL that `url::Url::join` makes of a base and a reference, written out;
/// none where it fails or the base is no URL.
pub uninterp spec fn url_joined(base: Seq<char>, reference: Seq<char>) -> Option<Seq<char>>;

/// The request target that `hyper::Uri` reads from a text.
pub uninterp spec fn uri_parsed(text: Seq<char>) -> Option<UriView>;

/// Calls `url::Url::parse` and takes the result apart with its accessors
/// `scheme`, `username`, `password`, `host_str`, `port`, `path`, `query` and
/// `fragment`. The contract says that the outcome depends on the text alone; the
/// grammar of URLs is not stated.
#[verifier::external_body]
pub(crate) fn parse_url(text: &str) -> (parsed: Result<UrlParts, String>)
    ensures
        url_parsed(text@) == (match parsed {
            Ok(parts) => Ok::<UrlView, Seq<char>>(parts@),
            Err(message) => Err(message@),
        }),
{
    let url = url::Url::parse(text).map_err(|error| error.to_string())?;
    Ok(UrlParts {
        scheme: url.scheme().to_owned(),
        username: url.username().to_owned(),
        password: url.password().map(str::to_owned),
        host: url.host_str().map(str::to_owned),
        port: url.port(),
        path: url.path().to_owned(),
        query: url.query().map(str::to_owned),
        fragment: url.fragment().map(str::to_owned),
    })
}

/// Calls `url::Url::join` on the URL that `base` stands for and writes the result
/// out with `as_str`. The contract says that the outcome depends on the two texts
/// alone; the rules of resolution are not stated.
#[verifier::external_body]
pub(crate) fn join_url(base: &str, reference: &str) -> (joined: Option<String>)
    ensures
        text_view(joined) == url_joined(base@, reference@),
{
    let base = url::Url::parse(base).ok()?;
    base.join(reference).ok().map(|url| url.as_str().to_owned())
}

/// Reads a text as a `hyper::Uri` and takes from it what a request needs: the
/// target written out, whether `scheme` is there, and `authority`. The contract
/// says that the outcome depends on the text alone; the grammar is not stated.
#[verifier::external_body]
pub(crate) fn parse_uri(text: &str) -> (parsed: Option<HttpUri>)
    ensures
        uri_view(parsed) == uri_parsed(text@),
{
    let uri = text.parse::<hyper::Uri>().ok()?;
    Some(HttpUri {
        text: uri.to_string(),
        has_scheme: uri.scheme().is_some(),
        authority: uri.authority().map(|authority| authority.as_str().to_owned()),
    })
}

} // verus!
