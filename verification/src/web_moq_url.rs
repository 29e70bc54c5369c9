//! Addresses of Media over QUIC broadcasts.

use crate::address::{parse_url, text_view, url_parsed, UrlParts, UrlView};
use crate::text::{
    decimal, decimal_digits, law_last_cuts_a_text, occurs_at, rfind, same_text, slice, starts_with,
    trim, trimmed,
};
use crate::video::VideoError;
use vstd::prelude::*;
use vstd::string::StringExecFns;

verus! {

/// The port of a relay that names none.
pub const DEFAULT_PORT: u16 = 443;

/// The address of a broadcast: a relay, a path to authenticate with, and the name
/// of the broadcast.
#[derive(Debug, PartialEq, Eq)]
pub struct WebMoqUrl {
    pub host: String,
    pub port: u16,
    pub use_tls: bool,
    /// The path before the name, without slashes around it.
    pub auth_path: Option<String>,
    /// The last segment of the path.
    pub namespace: String,
    pub query: Option<String>,
    pub original: String,
}

/// What is wrong with a URL that is no address of a broadcast.
pub open spec fn moq_refusal(url: UrlView) -> Option<Seq<char>> {
    if url.scheme != "moqs"@ && url.scheme != "moq"@ {
        Some("URL must start with moq:// or moqs://"@)
    } else if url.username.len() > 0 || url.password is Some || url.fragment is Some {
        Some("MoQ URLs do not support userinfo or fragments"@)
    } else if url.host is None || url.host->0.len() == 0 {
        Some("Missing host"@)
    } else if trimmed(url.path, '/').len() == 0 {
        Some("Missing namespace"@)
    } else {
        None
    }
}

/// The way to authenticate, as it stands in a URL.
pub open spec fn path_text(auth_path: Option<String>) -> Seq<char> {
    match auth_path {
        Some(path) => "/"@ + path@,
        None => Seq::empty(),
    }
}

/// The query, as it stands in a URL.
pub open spec fn query_text(query: Option<String>) -> Seq<char> {
    match query {
        Some(query) => "?"@ + query@,
        None => Seq::empty(),
    }
}

impl WebMoqUrl {
    /// True where the address holds what `url` says, `original` being its text.
    pub open spec fn stands_for(self, original: Seq<char>, url: UrlView) -> bool {
        &&& Some(self.host@) == url.host
        &&& self.port == (match url.port {
            Some(port) => port,
            None => DEFAULT_PORT,
        })
        &&& self.use_tls == (url.scheme == "moqs"@)
        &&& trimmed(url.path, '/') == (match self.auth_path {
            Some(path) => path@ + seq!['/'] + self.namespace@,
            None => self.namespace@,
        })
        &&& !self.namespace@.contains('/')
        &&& self.namespace@.len() > 0
        &&& text_view(self.query) == url.query
        &&& self.original@ == original
    }

    /// What a parsed URL gives: an address, or the reason for refusing it.
    pub open spec fn outcome(
        result: Result<WebMoqUrl, VideoError>,
        original: Seq<char>,
        url: UrlView,
    ) -> bool {
        match result {
            Ok(address) => moq_refusal(url) is None && address.stands_for(original, url),
            Err(error) => error is OpenFailed && moq_refusal(url) == Some(error->OpenFailed_0@),
        }
    }

    /// Reads an address from the parts of a URL.
    pub fn from_parts(original: &str, url: UrlParts) -> (result: Result<WebMoqUrl, VideoError>)
        ensures
            Self::outcome(result, original@, url@),
    {
        let use_tls: bool = same_text(url.scheme.as_str(), "moqs");
        if !use_tls && !same_text(url.scheme.as_str(), "moq") {
            return Err(VideoError::OpenFailed("URL must start with moq:// or moqs://".to_owned()));
        }
        if url.username.as_str().unicode_len() > 0 || url.password.is_some()
            || url.fragment.is_some() {
            return Err(
                VideoError::OpenFailed("MoQ URLs do not support userinfo or fragments".to_owned()),
            );
        }
        let host: String = match url.host {
            Some(host) => host,
            None => {
                return Err(VideoError::OpenFailed("Missing host".to_owned()));
            },
        };
        if host.as_str().unicode_len() == 0 {
            return Err(VideoError::OpenFailed("Missing host".to_owned()));
        }
        let port: u16 = match url.port {
            Some(port) => port,
            None => DEFAULT_PORT,
        };
        let path: String = trim(url.path.as_str(), '/');
        let len: usize = path.as_str().unicode_len();
        if len == 0 {
            return Err(VideoError::OpenFailed("Missing namespace".to_owned()));
        }
        let (auth_path, namespace): (Option<String>, String) = match rfind(path.as_str(), '/') {
            Some(at) => {
                let auth_path: String = slice(path.as_str(), 0, at);
                let namespace: String = slice(path.as_str(), at + 1, len);
                assert(path@ =~= auth_path@ + seq!['/'] + namespace@);
                (Some(auth_path), namespace)
            },
            None => (None, path),
        };
        Ok(
            WebMoqUrl {
                host,
                port,
                use_tls,
                auth_path,
                namespace,
                query: url.query,
                original: original.to_owned(),
            },
        )
    }

    /// Reads an address from its text.
    pub fn parse(url: &str) -> (result: Result<WebMoqUrl, VideoError>)
        ensures
            match url_parsed(url@) {
                Ok(parts) => Self::outcome(result, url@, parts),
                Err(message) => result is Err && result->Err_0 is OpenFailed
                    && result->Err_0->OpenFailed_0@ == "Invalid MoQ URL: "@ + message,
            },
    {
        match parse_url(url) {
            Ok(parts) => Self::from_parts(url, parts),
            Err(message) => Err(
                VideoError::OpenFailed("Invalid MoQ URL: ".to_owned().concat(message.as_str())),
            ),
        }
    }

    /// The address to connect to, without the name of the broadcast.
    pub fn webtransport_url(&self) -> (text: String)
        ensures
            text@ == (if self.use_tls {
                "https"@
            } else {
                "http"@
            }) + "://"@ + self.host@ + ":"@ + decimal_digits(self.port as nat) + path_text(
                self.auth_path,
            ) + query_text(self.query),
    {
        let scheme: &str = if self.use_tls {
            "https"
        } else {
            "http"
        };
        let mut text: String = scheme.to_owned();
        text.append("://");
        text.append(self.host.as_str());
        text.append(":");
        text.append(decimal(self.port as u64).as_str());
        if let Some(path) = &self.auth_path {
            text.append("/");
            text.append(path.as_str());
        }
        if let Some(query) = &self.query {
            text.append("?");
            text.append(query.as_str());
        }
        text
    }

    /// The name of the broadcast.
    pub fn namespace(&self) -> (name: &str)
        ensures
            name@ == self.namespace@,
    {
        self.namespace.as_str()
    }

    /// True where a text names a broadcast rather than a file or a stream.
    pub fn is_moq_url(url: &str) -> (found: bool)
        ensures
            found == (occurs_at(url@, "moq://"@, 0) || occurs_at(url@, "moqs://"@, 0)),
    {
        starts_with(url, "moq://") || starts_with(url, "moqs://")
    }
}

/// An address is taken exactly where it has one of the two schemes, no user, password or
/// fragment, a host, and a name; without a port it is that of secure connections.
pub proof fn law_addresses_need_a_host_and_a_name(
    result: Result<WebMoqUrl, VideoError>,
    original: Seq<char>,
    url: UrlView,
)
    requires
        WebMoqUrl::outcome(result, original, url),
    ensures
        result is Ok <==> (url.scheme == "moq"@ || url.scheme == "moqs"@) && url.username.len() == 0
            && url.password is None && url.fragment is None && url.host is Some
            && url.host->0.len() > 0 && trimmed(url.path, '/').len() > 0,
        result matches Ok(address) ==> {
            &&& Some(address.host@) == url.host
            &&& url.port matches Some(port) ==> address.port == port
            &&& url.port is None ==> address.port == 443
            &&& url.scheme == "moqs"@ ==> address.use_tls
            &&& address.use_tls ==> url.scheme == "moqs"@
            &&& address.original@ == original
        },
        result is Err ==> result->Err_0 is OpenFailed,
{
}

/// The name is what stands after the last slash of the path, and the way to authenticate what
/// stands before it, where there is any.
pub proof fn law_name_is_the_end_of_the_path(
    address: WebMoqUrl,
    original: Seq<char>,
    url: UrlView,
    way: Seq<char>,
    name: Seq<char>,
)
    requires
        address.stands_for(original, url),
        !name.contains('/'),
        name.len() > 0,
    ensures
        trimmed(url.path, '/') == way + seq!['/'] + name ==> address.namespace@ == name
            && address.auth_path is Some && address.auth_path->0@ == way,
        trimmed(url.path, '/') == name ==> address.namespace@ == name && address.auth_path is None,
{
    let path = trimmed(url.path, '/');
    let joined = way + seq!['/'] + name;
    match address.auth_path {
        Some(before) => {
            let read = before@ + seq!['/'] + address.namespace@;
            law_last_cuts_a_text(before@, '/', address.namespace@);
            if path == joined {
                law_last_cuts_a_text(way, '/', name);
                assert(before@.len() == way.len());
                assert(read.take(way.len() as int) =~= before@);
                assert(joined.take(way.len() as int) =~= way);
            }
            if path == name {
                assert(name[before@.len() as int] == '/');
            }
        },
        None => {
            if path == joined {
                assert(joined[way.len() as int] == '/');
                assert(address.namespace@.contains('/'));
            }
        },
    }
}

} // verus!
