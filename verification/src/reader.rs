//! The remote asset reader: configuration, request URLs, and the fetch
//! decisions.
//!
//! A reader is bound once, at construction, to an optional base origin and
//! never mutated afterwards; every operation takes it by shared reference,
//! so arbitrarily many fetches may run against one reader at once. The
//! asynchronous transport itself lives outside this crate; everything the
//! fetch decides — which URL to request, what a status code means, which
//! error a failure becomes — is here, as a function from what was observed
//! to what is returned.

use vstd::prelude::*;
use vstd::string::*;
use crate::error::bad_status_error;
use crate::error::bad_status_message;
use crate::error::FetchError;
use crate::listing::EmptyListing;
use crate::status::classify_status;
use crate::status::spec_classify_status;
use crate::status::StatusClass;
use crate::urls::join_url;
use crate::urls::joined_url;
use crate::urls::parse_url;
use crate::urls::parsed_url;

verus! {

/// Seconds an in-flight request may take before the transport gives up on
/// it; expiry surfaces as a transport failure.
pub const REQUEST_TIMEOUT_SECS: u64 = 5;

/// The sidecar convention: the metadata of `path` lives at `path + ".meta"`.
pub open spec fn spec_meta_path(path: Seq<char>) -> Seq<char> {
    path + ".meta"@
}

/// The URL a fetch of `path` is issued against: `path` resolved against the
/// base origin, or `path` itself, taken as a complete URL, when no base is
/// configured.
pub open spec fn spec_request_url(base: Option<Seq<char>>, path: Seq<char>) -> Option<Seq<char>> {
    match base {
        None => Some(path),
        Some(b) => joined_url(b, path),
    }
}

/// The URL a metadata fetch of `path` is issued against.
pub open spec fn spec_meta_request_url(base: Option<Seq<char>>, path: Seq<char>) -> Option<
    Seq<char>,
> {
    spec_request_url(base, spec_meta_path(path))
}

/// The path the metadata of `path` is fetched from.
pub fn meta_path(path: &str) -> (m: String)
    ensures
        m@ == spec_meta_path(path@),
{
    let mut m = String::from_str(path);
    m.append(".meta");
    m
}

/// What to do once a response to a fetch of some path has arrived.
pub enum StatusDecision {
    /// The status was 2xx: read the body to completion.
    ReadBody,
    /// The status was anything else: the fetch failed with this error.
    Fail(FetchError),
}

/// Decide from a received status code whether the body is to be read or the
/// fetch of `path` has failed, and with which error: 404 means the asset is
/// absent, every other non-2xx status is a failure carrying the code.
pub fn on_status(path: &str, status: u16) -> (d: StatusDecision)
    ensures
        spec_classify_status(status) == StatusClass::Success ==> d == StatusDecision::ReadBody,
        spec_classify_status(status) == StatusClass::NotFound ==> (d matches StatusDecision::Fail(e)
            && (e matches FetchError::NotFound(p) && p@ == path@)),
        spec_classify_status(status) == StatusClass::Failure ==> (d matches StatusDecision::Fail(e)
            && (e matches FetchError::Io(m) && m@ == bad_status_message(status))),
{
    match classify_status(status) {
        StatusClass::Success => StatusDecision::ReadBody,
        StatusClass::NotFound => StatusDecision::Fail(
            FetchError::NotFound(String::from_str(path)),
        ),
        StatusClass::Failure => StatusDecision::Fail(bad_status_error(status)),
    }
}

/// A reader of remote assets, bound to an optional base origin.
pub struct HttpAssetReader {
    base: Option<String>,
}

impl HttpAssetReader {
    /// The base origin the reader was built with, where a valid one was
    /// given.
    pub closed spec fn base(&self) -> Option<Seq<char>> {
        match self.base {
            Some(b) => Some(b@),
            None => None,
        }
    }

    /// Creates a new `HttpAssetReader` bound to an optional base origin.
    /// The accepted construction policy is lenient: a base that is not a
    /// valid absolute URL is silently dropped, and paths are then treated as
    /// complete URLs.
    pub fn new(base_url: Option<&str>) -> (r: HttpAssetReader)
        ensures
            base_url is None ==> r.base() is None,
            (base_url matches Some(s) ==> r.base() == parsed_url(s@)),
    {
        let base = match base_url {
            Some(s) => parse_url(s),
            None => None,
        };
        HttpAssetReader { base }
    }

    /// The URL one fetch of `path` is issued against; nothing where the
    /// path cannot be resolved against the base origin.
    pub fn request_url(&self, path: &str) -> (u: Option<String>)
        ensures
            u is Some <==> spec_request_url(self.base(), path@) is Some,
            (u matches Some(s) ==> spec_request_url(self.base(), path@) == Some(s@)),
    {
        match &self.base {
            Some(b) => join_url(b.as_str(), path),
            None => Some(String::from_str(path)),
        }
    }

    /// The URL a metadata fetch of `path` is issued against: exactly the
    /// request URL of the sidecar path `path + ".meta"`.
    pub fn meta_request_url(&self, path: &str) -> (u: Option<String>)
        ensures
            u is Some <==> spec_meta_request_url(self.base(), path@) is Some,
            (u matches Some(s) ==> spec_meta_request_url(self.base(), path@) == Some(s@)),
    {
        let m = meta_path(path);
        self.request_url(m.as_str())
    }

    /// Directory listing is unsupported over HTTP: every listing is empty,
    /// whatever the path and whatever the origin holds. The caller is
    /// expected to surface a diagnostic beside it.
    pub fn read_directory(&self, _path: &str) -> (l: EmptyListing)
        ensures
            l.items() == Seq::<Seq<char>>::empty(),
    {
        EmptyListing::new()
    }

    /// An HTTP origin has no directories: nothing is one, whatever the path
    /// and whatever the origin holds. The caller is expected to surface a
    /// diagnostic beside it.
    pub fn is_directory(&self, _path: &str) -> (b: bool)
        ensures
            b == false,
    {
        false
    }
}

/// Law: a metadata fetch is an ordinary fetch of the sidecar path. The URL
/// it is issued against is the request URL of `path + ".meta"`; its status
/// classification is shared with ordinary fetches, since classification is a
/// function of the status code alone.
pub proof fn lemma_meta_fetch_is_sidecar_fetch(base: Option<Seq<char>>, path: Seq<char>)
    ensures
        spec_meta_request_url(base, path) == spec_request_url(base, spec_meta_path(path)),
{
}

} // verus!
