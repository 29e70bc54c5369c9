//! Rules of an HTTP download: which redirects are followed, how much of a body is
//! taken, and what is reported when a request fails.

use crate::address::{
    join_url, parse_uri, parse_url, text_view, uri_parsed, uri_view, url_joined, url_parsed,
    HttpUri, UriView,
};
use crate::text::{decimal, decimal_digits, parse_number, parsed_number};
use vstd::prelude::*;
use vstd::string::StringExecFns;

verus! {

/// The most that is taken of the body of an ordinary request.
pub const MAX_BODY_BYTES: usize = 20 * 1024 * 1024;

/// The most that is taken of the body of a video.
pub const MAX_VIDEO_BODY_BYTES: usize = 1024 * 1024 * 1024;

/// How many redirects are followed before a download is given up.
pub const MAX_REDIRECTS: usize = 5;

/// Why a download failed.
#[derive(Debug, PartialEq, Eq)]
pub enum HyperHttpError {
    /// The connection failed, with the message of the failure.
    Hyper(String),
    Host,
    Uri,
    BodyTooLarge,
    TooManyRedirects,
    MissingRedirectLocation,
    InvalidRedirectLocation,
    TlsConfig,
    HttpStatus(u16),
}

impl HyperHttpError {
    /// The message of an error.
    pub open spec fn message(self) -> Seq<char> {
        match self {
            HyperHttpError::Hyper(cause) => "Hyper error: "@ + cause@,
            HyperHttpError::Host => "Missing host in URL"@,
            HyperHttpError::Uri => "Invalid URI"@,
            HyperHttpError::BodyTooLarge => "Body too large"@,
            HyperHttpError::TooManyRedirects => "Too many redirect responses"@,
            HyperHttpError::MissingRedirectLocation =>
                "Redirect response missing Location header"@,
            HyperHttpError::InvalidRedirectLocation => "Invalid redirect Location header"@,
            HyperHttpError::TlsConfig => "TLS configuration error (missing root certificates)"@,
            HyperHttpError::HttpStatus(code) => "HTTP error status: "@ + decimal_digits(code as nat),
        }
    }

    pub fn text(&self) -> (text: String)
        ensures
            text@ == self.message(),
    {
        match self {
            HyperHttpError::Hyper(cause) => "Hyper error: ".to_owned().concat(cause.as_str()),
            HyperHttpError::Host => "Missing host in URL".to_owned(),
            HyperHttpError::Uri => "Invalid URI".to_owned(),
            HyperHttpError::BodyTooLarge => "Body too large".to_owned(),
            HyperHttpError::TooManyRedirects => "Too many redirect responses".to_owned(),
            HyperHttpError::MissingRedirectLocation =>
                "Redirect response missing Location header".to_owned(),
            HyperHttpError::InvalidRedirectLocation =>
                "Invalid redirect Location header".to_owned(),
            HyperHttpError::TlsConfig =>
                "TLS configuration error (missing root certificates)".to_owned(),
            HyperHttpError::HttpStatus(code) => {
                "HTTP error status: ".to_owned().concat(decimal(*code as u64).as_str())
            },
        }
    }
}

/// A finished download.
#[derive(Debug, PartialEq, Eq)]
pub struct HyperHttpResponse {
    pub content_type: Option<String>,
    pub bytes: Vec<u8>,
}

/// What a response says about where to look instead.
#[derive(Debug, PartialEq, Eq)]
pub enum LocationHeader {
    Missing,
    /// The header holds bytes that are no text.
    NotText,
    Text(String),
}

/// Which statuses a download accepts besides redirects.
#[derive(Debug, Clone, Copy, PartialEq, Eq, Structural)]
pub enum StatusPolicy {
    AnyStatus,
    SuccessOnly,
}

/// What to do with a response.
#[derive(Debug, PartialEq, Eq)]
pub enum ResponseAction {
    /// Read and drop the body, then ask at the place named.
    FollowRedirect(String),
    ReadBody,
}

#[verifier::allow_in_spec]
pub fn is_redirection(status: u16) -> bool
    returns
        300 <= status < 400,
{
    300 <= status && status < 400
}

#[verifier::allow_in_spec]
pub fn is_success(status: u16) -> bool
    returns
        200 <= status < 300,
{
    200 <= status && status < 300
}

/// Where a redirect leads. `direct` is the location read as a target of its own,
/// `joined` the location resolved against the present target.
pub open spec fn redirect_target(
    direct: Option<UriView>,
    base_is_url: bool,
    joined: Option<UriView>,
) -> Result<UriView, HyperHttpError> {
    if direct is Some && direct->0.has_scheme {
        Ok(direct->0)
    } else if !base_is_url {
        Err(HyperHttpError::Uri)
    } else {
        match joined {
            Some(uri) => Ok(uri),
            None => Err(HyperHttpError::InvalidRedirectLocation),
        }
    }
}

/// Where a redirect from `current` to `location` leads.
pub open spec fn redirected(current: Seq<char>, location: Seq<char>) -> Result<
    UriView,
    HyperHttpError,
> {
    redirect_target(
        uri_parsed(location),
        url_parsed(current) is Ok,
        match url_joined(current, location) {
            Some(text) => uri_parsed(text),
            None => None,
        },
    )
}

/// The model of a target or an error.
pub open spec fn target_view(target: Result<HttpUri, HyperHttpError>) -> Result<
    UriView,
    HyperHttpError,
> {
    match target {
        Ok(uri) => Ok(uri@),
        Err(error) => Err(error),
    }
}

/// Chooses between a location that stands on its own and one that is relative.
pub fn choose_redirect(
    direct: Option<HttpUri>,
    base_is_url: bool,
    joined: Option<HttpUri>,
) -> (target: Result<HttpUri, HyperHttpError>)
    ensures
        target_view(target) == redirect_target(uri_view(direct), base_is_url, uri_view(joined)),
{
    if let Some(uri) = direct {
        if uri.has_scheme {
            return Ok(uri);
        }
    }
    if !base_is_url {
        return Err(HyperHttpError::Uri);
    }
    match joined {
        Some(uri) => Ok(uri),
        None => Err(HyperHttpError::InvalidRedirectLocation),
    }
}

/// Finds the target that a redirect leads to.
pub fn resolve_redirect(current: &HttpUri, location: &str) -> (target: Result<
    HttpUri,
    HyperHttpError,
>)
    ensures
        target_view(target) == redirected(current.text@, location@),
{
    let direct: Option<HttpUri> = parse_uri(location);
    let base_is_url: bool = parse_url(current.text.as_str()).is_ok();
    let joined: Option<HttpUri> = match join_url(current.text.as_str(), location) {
        Some(text) => parse_uri(text.as_str()),
        None => None,
    };
    choose_redirect(direct, base_is_url, joined)
}

/// The length that a `Content-Length` header announces, where it is a number.
pub fn declared_length(header: &Option<String>) -> (length: Option<u64>)
    ensures
        length == (match header {
            Some(text) => parsed_number(text@, 10),
            None => None,
        }),
{
    match header {
        Some(text) => parse_number(text.as_str(), 10),
        None => None,
    }
}

/// A download under way.
#[derive(Debug, PartialEq, Eq)]
pub struct HttpDownload {
    pub target: HttpUri,
    pub policy: StatusPolicy,
    pub redirects: usize,
    pub max_body_bytes: usize,
    pub bytes: Vec<u8>,
}

impl HttpDownload {
    /// The limits that hold at every moment of a download.
    pub open spec fn wf(self) -> bool {
        &&& self.redirects <= MAX_REDIRECTS
        &&& self.bytes@.len() <= self.max_body_bytes
    }

    /// Begins a download.
    pub fn start(url: &str, policy: StatusPolicy, max_body_bytes: usize) -> (begun: Result<
        Self,
        HyperHttpError,
    >)
        ensures
            match uri_parsed(url@) {
                None => begun == Err::<Self, HyperHttpError>(HyperHttpError::Uri),
                Some(uri) => {
                    &&& begun is Ok
                    &&& begun->Ok_0.wf()
                    &&& begun->Ok_0.target@ == uri
                    &&& begun->Ok_0.policy == policy
                    &&& begun->Ok_0.redirects == 0
                    &&& begun->Ok_0.max_body_bytes == max_body_bytes
                    &&& begun->Ok_0.bytes@ == Seq::<u8>::empty()
                },
            },
    {
        match parse_uri(url) {
            Some(target) => Ok(
                HttpDownload { target, policy, redirects: 0, max_body_bytes, bytes: Vec::new() },
            ),
            None => Err(HyperHttpError::Uri),
        }
    }

    /// The `Host` header of the next request.
    pub fn host(&self) -> (host: Result<String, HyperHttpError>)
        ensures
            match text_view(self.target.authority) {
                Some(authority) => host is Ok && host->Ok_0@ == authority,
                None => host == Err::<String, HyperHttpError>(HyperHttpError::Host),
            },
    {
        match &self.target.authority {
            Some(authority) => Ok(authority.clone()),
            None => Err(HyperHttpError::Host),
        }
    }

    /// What a response calls for.
    pub open spec fn reaction(self, status: u16, location: LocationHeader) -> Result<
        ResponseAction,
        HyperHttpError,
    > {
        if is_redirection(status) {
            if self.redirects >= MAX_REDIRECTS {
                Err(HyperHttpError::TooManyRedirects)
            } else {
                match location {
                    LocationHeader::Missing => Err(HyperHttpError::MissingRedirectLocation),
                    LocationHeader::NotText => Err(HyperHttpError::InvalidRedirectLocation),
                    LocationHeader::Text(place) => Ok(ResponseAction::FollowRedirect(place)),
                }
            }
        } else if self.policy == StatusPolicy::SuccessOnly && !is_success(status) {
            Err(HyperHttpError::HttpStatus(status))
        } else {
            Ok(ResponseAction::ReadBody)
        }
    }

    /// Decides what to do with a response.
    pub fn react(&self, status: u16, location: LocationHeader) -> (action: Result<
        ResponseAction,
        HyperHttpError,
    >)
        ensures
            action == self.reaction(status, location),
    {
        if is_redirection(status) {
            if self.redirects >= MAX_REDIRECTS {
                return Err(HyperHttpError::TooManyRedirects);
            }
            match location {
                LocationHeader::Missing => Err(HyperHttpError::MissingRedirectLocation),
                LocationHeader::NotText => Err(HyperHttpError::InvalidRedirectLocation),
                LocationHeader::Text(place) => Ok(ResponseAction::FollowRedirect(place)),
            }
        } else if self.policy == StatusPolicy::SuccessOnly && !is_success(status) {
            Err(HyperHttpError::HttpStatus(status))
        } else {
            Ok(ResponseAction::ReadBody)
        }
    }

    /// Turns to the place that a redirect named.
    pub fn follow(&mut self, location: &str) -> (followed: Result<(), HyperHttpError>)
        requires
            old(self).wf(),
            old(self).redirects < MAX_REDIRECTS,
        ensures
            final(self).wf(),
            final(self).policy == old(self).policy,
            final(self).max_body_bytes == old(self).max_body_bytes,
            final(self).bytes == old(self).bytes,
            match redirected(old(self).target.text@, location@) {
                Ok(uri) => {
                    &&& followed is Ok
                    &&& final(self).target@ == uri
                    &&& final(self).redirects == old(self).redirects + 1
                },
                Err(error) => {
                    &&& followed == Err::<(), HyperHttpError>(error)
                    &&& *final(self) == *old(self)
                },
            },
    {
        match resolve_redirect(&self.target, location) {
            Ok(target) => {
                self.target = target;
                self.redirects = self.redirects + 1;
                Ok(())
            },
            Err(error) => Err(error),
        }
    }

    /// Refuses a body whose announced length is over the limit.
    pub fn check_length(&self, announced: Option<u64>) -> (checked: Result<(), HyperHttpError>)
        ensures
            checked == (if announced is Some && self.max_body_bytes < announced->0 <= usize::MAX {
                Err::<(), HyperHttpError>(HyperHttpError::BodyTooLarge)
            } else {
                Ok(())
            }),
    {
        if let Some(length) = announced {
            if length <= usize::MAX as u64 && length > self.max_body_bytes as u64 {
                return Err(HyperHttpError::BodyTooLarge);
            }
        }
        Ok(())
    }

    /// Takes the next part of the body, unless it would go over the limit.
    pub fn push_chunk(&mut self, chunk: &[u8]) -> (taken: Result<(), HyperHttpError>)
        requires
            old(self).wf(),
        ensures
            final(self).wf(),
            final(self).target == old(self).target,
            final(self).policy == old(self).policy,
            final(self).redirects == old(self).redirects,
            final(self).max_body_bytes == old(self).max_body_bytes,
            match with_chunk(old(self).bytes@, chunk@, old(self).max_body_bytes as int) {
                None => {
                    &&& taken == Err::<(), HyperHttpError>(HyperHttpError::BodyTooLarge)
                    &&& final(self).bytes@ == old(self).bytes@
                },
                Some(bytes) => {
                    &&& taken is Ok
                    &&& final(self).bytes@ == bytes
                },
            },
    {
        if chunk.len() > self.max_body_bytes - self.bytes.len() {
            return Err(HyperHttpError::BodyTooLarge);
        }
        let ghost before = self.bytes@;
        self.bytes.extend_from_slice(chunk);
        assert(self.bytes@ =~= before + chunk@);
        Ok(())
    }

    /// Ends a download.
    pub fn finish(self, content_type: Option<String>) -> (response: HyperHttpResponse)
        ensures
            response == (HyperHttpResponse { content_type, bytes: self.bytes }),
    {
        HyperHttpResponse { content_type, bytes: self.bytes }
    }
}

/// A body with one more part, or none where that goes over the limit.
pub open spec fn with_chunk(bytes: Seq<u8>, chunk: Seq<u8>, limit: int) -> Option<Seq<u8>> {
    if bytes.len() + chunk.len() > limit {
        None
    } else {
        Some(bytes + chunk)
    }
}

/// The parts of a body, one after the other.
pub open spec fn joined_chunks(chunks: Seq<Seq<u8>>) -> Seq<u8>
    decreases chunks.len(),
{
    if chunks.len() == 0 {
        Seq::empty()
    } else {
        joined_chunks(chunks.drop_last()) + chunks.last()
    }
}

/// What a download has taken after it was offered `chunks`: all of them, or none
/// beyond the first that goes over the limit.
pub open spec fn taken_body(chunks: Seq<Seq<u8>>, limit: int) -> Option<Seq<u8>>
    decreases chunks.len(),
{
    if chunks.len() == 0 {
        Some(Seq::empty())
    } else {
        match taken_body(chunks.drop_last(), limit) {
            None => None,
            Some(bytes) => with_chunk(bytes, chunks.last(), limit),
        }
    }
}

/// A body is taken whole where it fits, however it is cut into parts, and refused
/// where it does not.
pub proof fn law_body_is_whole_or_refused(chunks: Seq<Seq<u8>>, limit: int)
    requires
        limit >= 0,
    ensures
        taken_body(chunks, limit) == (if joined_chunks(chunks).len() <= limit {
            Some(joined_chunks(chunks))
        } else {
            None::<Seq<u8>>
        }),
    decreases chunks.len(),
{
    if chunks.len() > 0 {
        law_body_is_whole_or_refused(chunks.drop_last(), limit);
    }
}

/// However servers answer, no redirect is followed once the limit is reached.
pub proof fn law_redirects_run_out(
    download: HttpDownload,
    status: u16,
    location: LocationHeader,
)
    requires
        download.wf(),
        download.reaction(status, location) matches Ok(ResponseAction::FollowRedirect(_)),
    ensures
        download.redirects < MAX_REDIRECTS,
{
}

/// A redirect is followed to the place that it names, while there are fewer than the limit;
/// one that names none is an error, and so is a status outside of the two hundreds where
/// only success will do. Any other response is read.
pub proof fn law_responses_are_dealt_with_by_status(
    download: HttpDownload,
    status: u16,
    location: LocationHeader,
)
    ensures
        ({
            let moved = 300 <= status <= 399;
            let fine = 200 <= status <= 299;
            let reaction = download.reaction(status, location);
            &&& reaction == Ok::<ResponseAction, HyperHttpError>(ResponseAction::ReadBody) <==> fine
                || (!moved && download.policy != StatusPolicy::SuccessOnly)
            &&& reaction == Err::<ResponseAction, HyperHttpError>(
                HyperHttpError::HttpStatus(status),
            ) <==> !moved && !fine && download.policy == StatusPolicy::SuccessOnly
            &&& reaction == Err::<ResponseAction, HyperHttpError>(HyperHttpError::TooManyRedirects)
                <==> moved && download.redirects >= 5
            &&& moved && download.redirects < 5 ==> (match location {
                LocationHeader::Text(place) => reaction == Ok::<ResponseAction, HyperHttpError>(
                    ResponseAction::FollowRedirect(place),
                ),
                LocationHeader::Missing => reaction == Err::<ResponseAction, HyperHttpError>(
                    HyperHttpError::MissingRedirectLocation,
                ),
                LocationHeader::NotText => reaction == Err::<ResponseAction, HyperHttpError>(
                    HyperHttpError::InvalidRedirectLocation,
                ),
            })
        }),
{
}

/// A location with a scheme of its own is where a redirect leads, whatever it came from; any
/// other leads to where it is from the place it came from, and nowhere where that fails.
pub proof fn law_redirects_lead_where_they_say(
    direct: Option<UriView>,
    base_is_url: bool,
    joined: Option<UriView>,
)
    ensures
        ({
            let target = redirect_target(direct, base_is_url, joined);
            let stands_alone = direct is Some && direct->0.has_scheme;
            &&& stands_alone ==> target == Ok::<UriView, HyperHttpError>(direct->0)
            &&& !stands_alone && base_is_url && joined is Some ==> target == Ok::<
                UriView,
                HyperHttpError,
            >(joined->0)
            &&& target is Err <==> !stands_alone && (!base_is_url || joined is None)
            &&& !stands_alone && !base_is_url ==> target == Err::<UriView, HyperHttpError>(
                HyperHttpError::Uri,
            )
            &&& !stands_alone && base_is_url && joined is None ==> target == Err::<
                UriView,
                HyperHttpError,
            >(HyperHttpError::InvalidRedirectLocation)
        }),
{
}

/// A redirect leads to its location where that is an address with a scheme, and else to the
/// location as seen from where it was met.
pub proof fn law_relative_redirects_start_from_here(current: Seq<char>, location: Seq<char>)
    ensures
        uri_parsed(location) is Some && uri_parsed(location)->0.has_scheme ==> redirected(
            current,
            location,
        ) == Ok::<UriView, HyperHttpError>(uri_parsed(location)->0),
        !(uri_parsed(location) is Some && uri_parsed(location)->0.has_scheme) && url_parsed(current)
            is Ok && url_joined(current, location) is Some && uri_parsed(
            url_joined(current, location)->0,
        ) is Some ==> redirected(current, location) == Ok::<UriView, HyperHttpError>(
            uri_parsed(url_joined(current, location)->0)->0,
        ),
        !(uri_parsed(location) is Some && uri_parsed(location)->0.has_scheme) && url_parsed(current)
            is Ok && url_joined(current, location) is None ==> redirected(current, location)
            == Err::<UriView, HyperHttpError>(HyperHttpError::InvalidRedirectLocation),
{
}

} // verus!
