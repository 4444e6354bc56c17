//! The client root and the execution pipeline.
//!
//! `Coder` owns the validated base origin and the session token; each entry
//! point begins a fresh, independent chain, so concurrent chains share
//! nothing mutable.  Every executable chain ends in the `Executor`
//! capability, whose `finish` turns the accumulated state into exactly one
//! GET request — or the error that poisoned the chain, without composing
//! anything.  The embedding code performs the exchange and hands status,
//! headers and body back to `interpret_response`, which applies the
//! status/decode contract: a 2xx body must decode as the endpoint's payload
//! type, any other status must carry a JSON error document, and a document
//! that decodes is data in the envelope, never a failure.

use vstd::prelude::*;
use vstd::string::StringExecFns;

use crate::builder::Builder;
use crate::builder::PartsView;
use crate::builder::Request;
use crate::builder::full_url;
use crate::error::ApiError;
use crate::error::Error;
use crate::error::ErrorSpec;
use crate::headers::Headers;
use crate::json::decode_api_error;
use crate::json::is_json;
use crate::util::valid_origin;

verus! {

/// The origin `scheme://host[:port]` of `s`, when `s` parses as an absolute
/// URL whose scheme is directly one of the ftp/http/https/ws/wss family, as
/// the URL parser serializes it (default ports omitted).  A function of the
/// characters alone.
pub uninterp spec fn url_origin(s: Seq<char>) -> Option<Seq<char>>;

/// Relies on url::Url::parse and url::Origin::ascii_serialization: a tuple
/// origin exists exactly for URLs of the ftp/http/https/ws/wss schemes, and
/// serializes as `scheme://host[:port]` — ASCII, never empty, no trailing
/// `/`, no `?`, `#` or space.  The `blob` scheme is refused up front, before
/// `origin()` is asked: the parser computes a blob URL's origin by parsing
/// its path and recursing, with no depth bound, so only the refusal keeps
/// the call from exhausting the stack on deeply nested blob URLs.
#[verifier::external_body]
fn parse_origin(s: &str) -> (r: Option<String>)
    ensures
        r is Some <==> url_origin(s@) is Some,
        r matches Some(o) ==> o@ == url_origin(s@)->Some_0 && valid_origin(o@),
{
    match url::Url::parse(s) {
        Ok(u) => {
            if u.scheme() == "blob" {
                return None;
            }
            match u.origin() {
                url::Origin::Tuple(..) => Some(u.origin().ascii_serialization()),
                url::Origin::Opaque(_) => None,
            }
        },
        Err(_) => None,
    }
}

/// The result of one completed execution: status, headers, and either the
/// decoded payload or the service's structured error — both are ordinary
/// data to branch on.
pub struct ApiResponse<T> {
    pub headers: Headers,
    pub status_code: u16,
    pub response: Result<T, ApiError>,
}

/// A client of one deployment: the validated origin and the session token.
/// Immutable after construction; every entry point starts an independent
/// chain.
pub struct Coder {
    origin: String,
    token: String,
}

impl Coder {
    /// The origin this client was constructed with.
    pub closed spec fn origin_spec(&self) -> Seq<char> {
        self.origin@
    }

    /// The session token this client was constructed with.
    pub closed spec fn token_spec(&self) -> Seq<char> {
        self.token@
    }

    /// The state every chain of this client starts from: the origin, the
    /// fixed API path prefix, no query pairs, and the two request headers.
    pub open spec fn root_parts(&self) -> PartsView {
        PartsView {
            origin: self.origin_spec(),
            segments: seq!["api"@],
            query: Seq::<(Seq<char>, Seq<char>)>::empty(),
            headers: seq![
                ("User-Agent"@, "coder.rs 0.1.0"@),
                ("Session-Token"@, self.token_spec()),
            ],
        }
    }

    /// Builds a client from a base URL and a session token.  The URL is
    /// parsed and validated once, here: construction succeeds exactly when
    /// it has an HTTP-family origin, and the client keeps that origin.
    pub fn new(uri: String, token: String) -> (r: Result<Coder, Error>)
        ensures
            r is Ok <==> url_origin(uri@) is Some,
            r matches Ok(c) ==> c.origin_spec() == url_origin(uri@)->Some_0 && valid_origin(
                c.origin_spec(),
            ) && c.token_spec() == token@,
            r matches Err(e) ==> e@ is UrlParse,
    {
        match parse_origin(uri.as_str()) {
            Some(origin) => Ok(Coder { origin, token }),
            None => Err(Error::UrlParse),
        }
    }

    /// A fresh request state pointing at the API root, carrying the
    /// client's `User-Agent` and `Session-Token` headers.  Every chain, and
    /// every custom request, begins here.
    pub fn new_request(&self) -> (b: Builder)
        ensures
            b@ == Ok::<PartsView, ErrorSpec>(self.root_parts()),
    {
        let mut headers: Vec<(String, String)> = Vec::new();
        headers.push((ua_name(), ua_value()));
        headers.push((token_name(), self.token.clone()));
        let b = Builder::start(self.origin.clone(), headers).join_path("api");
        proof {
            reveal_strlit("api");
            assert(crate::util::valid_component("api"@));
            assert(b@->Ok_0.segments =~= seq!["api"@]);
            assert(b@->Ok_0.headers =~= self.root_parts().headers);
        }
        b
    }
}

fn ua_name() -> (s: String)
    ensures
        s@ == "User-Agent"@,
{
    String::from_str("User-Agent")
}

fn ua_value() -> (s: String)
    ensures
        s@ == "coder.rs 0.1.0"@,
{
    String::from_str("coder.rs 0.1.0")
}

fn token_name() -> (s: String)
    ensures
        s@ == "Session-Token"@,
{
    String::from_str("Session-Token")
}

/// The law of every chain reachable from a client root: appending valid
/// segments keeps the chain live, and the URL it composes to is the
/// client's origin followed by the fixed prefix and each appended segment,
/// one `/` before each, nothing else — no query pairs, no stray
/// separators.  The origin hypothesis is what `Coder::new` ensures of
/// every client it builds.  With `lemma_path_string_separators`, that path
/// holds no doubled `/` and never ends in one.
pub proof fn lemma_root_chain_url(c: &Coder, segs: Seq<Seq<char>>)
    requires
        valid_origin(c.origin_spec()),
        forall|i: int| 0 <= i < segs.len() ==> crate::util::valid_component(#[trigger] segs[i]),
    ensures
        crate::builder::nav_run(
            Ok(c.root_parts()),
            crate::builder::path_steps(segs),
        ) matches Ok(w) && w.segments == seq!["api"@] + segs && full_url(w) == c.origin_spec()
            + crate::util::path_string(seq!["api"@] + segs),
{
    crate::builder::lemma_chain_appends_segments(c.root_parts(), segs);
    let w = crate::builder::nav_run(Ok(c.root_parts()), crate::builder::path_steps(segs))->Ok_0;
    assert(seq!["api"@] + segs =~= c.root_parts().segments + segs);
    reveal_strlit("api");
    assert(crate::util::valid_component("api"@));
    assert(forall|i: int|
        0 <= i < w.segments.len() ==> crate::util::valid_component(#[trigger] w.segments[i]));
    crate::builder::lemma_full_url_of_valid_origin(w);
    assert(crate::util::query_string(w.query) =~= Seq::<char>::empty());
    assert(c.origin_spec() + crate::util::path_string(w.segments) + crate::util::query_string(
        w.query,
    ) =~= c.origin_spec() + crate::util::path_string(w.segments));
}

/// The capability of every chain that points at a fetchable resource.
/// `T` is the payload shape the endpoint yields: one record, or a list.
pub trait Executor: Sized {
    /// The decoded payload type of this endpoint.
    type T;

    /// The chain's accumulated request state, or its poison.
    spec fn chain(&self) -> Result<PartsView, ErrorSpec>;

    /// Finalizes the chain.  A live chain composes exactly its accumulated
    /// URL; a poisoned chain surfaces the carried composition error and
    /// composes nothing, so nothing is ever sent for it.
    fn finish(self) -> (r: Result<Request, Error>)
        ensures
            self.chain() matches Err(e) ==> (r matches Err(re) && re@ == e),
            self.chain() matches Ok(v) ==> (r matches Ok(req) && req.url@ == full_url(v)
                && req.headers.deep_view() == v.headers),
    ;
}

/// Whether a status is in the HTTP success range.
pub fn is_success(status: u16) -> (r: bool)
    ensures
        r == (200 <= status < 300),
{
    200 <= status && status < 300
}

/// The envelope of a successful status: the payload decode must have
/// succeeded, and its value rides in the `Ok` response; a failed decode is
/// a `Decode` error, not an envelope.
pub fn success_response<T>(status: u16, headers: Headers, decoded: Option<T>) -> (r: Result<
    ApiResponse<T>,
    Error,
>)
    requires
        200 <= status < 300,
    ensures
        decoded matches Some(t) ==> (r matches Ok(resp) && resp.status_code == status
            && resp.headers@ == headers@ && resp.response == Ok::<T, ApiError>(t)),
        decoded is None ==> (r matches Err(e) && e@ is Decode),
{
    match decoded {
        Some(t) => Ok(ApiResponse { headers, status_code: status, response: Ok(t) }),
        None => Err(Error::Decode),
    }
}

/// The envelope of a non-success status: the decoded error document rides
/// in the `Err` response as data; only a body that was no JSON document at
/// all is a `Decode` failure.
pub fn error_response<T>(status: u16, headers: Headers, payload: Option<ApiError>) -> (r: Result<
    ApiResponse<T>,
    Error,
>)
    ensures
        payload matches Some(e) ==> (r matches Ok(resp) && resp.status_code == status
            && resp.headers@ == headers@ && resp.response == Err::<T, ApiError>(e)),
        payload is None ==> (r matches Err(e) && e@ is Decode),
{
    match payload {
        Some(e) => Ok(ApiResponse { headers, status_code: status, response: Err(e) }),
        None => Err(Error::Decode),
    }
}

/// The whole status/decode contract, applied to one exchange's results.
///
/// `decoded` is the attempt to decode the body as `T`, made by the caller
/// with the codec of its choice; it is consulted exactly on 2xx statuses.
/// On every other status the body itself must hold a JSON error document,
/// which is decoded here and returned as data.
pub fn interpret_response<T>(
    status: u16,
    headers: Headers,
    body: &[u8],
    decoded: Option<T>,
) -> (r: Result<ApiResponse<T>, Error>)
    ensures
        200 <= status < 300 ==> {
            &&& decoded matches Some(t) ==> (r matches Ok(resp) && resp.status_code == status
                && resp.headers@ == headers@ && resp.response == Ok::<T, ApiError>(t))
            &&& decoded is None ==> (r matches Err(e) && e@ is Decode)
        },
        !(200 <= status < 300) ==> {
            &&& is_json(body@) ==> (r matches Ok(resp) && resp.status_code == status
                && resp.headers@ == headers@ && resp.response is Err)
            &&& !is_json(body@) ==> (r matches Err(e) && e@ is Decode)
        },
{
    if is_success(status) {
        success_response(status, headers, decoded)
    } else {
        error_response(status, headers, decode_api_error(body))
    }
}

} // verus!
