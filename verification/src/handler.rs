//! Origin negotiation and response assembly for the "now playing" endpoint.

use crate::track::NowPlayingResponse;
use crate::track::response_body;
use vstd::prelude::*;
use vstd::string::StrSliceExecFns;
use vstd::string::StringExecFns;

verus! {

/// A character sequence is a localhost origin when it is exactly
/// `http://localhost` or begins with `http://localhost:` (any port).
pub open spec fn localhost_origin(o: Seq<char>) -> bool {
    ||| o == "http://localhost"@
    ||| (o.len() >= "http://localhost:"@.len() && o.subrange(
        0,
        "http://localhost:"@.len() as int,
    ) == "http://localhost:"@)
}

/// The view of an optional `Origin` header value.
pub open spec fn origin_view(origin: Option<&str>) -> Option<Seq<char>> {
    match origin {
        Some(o) => Some(o@),
        None => None,
    }
}

/// The allow-origin policy: a localhost origin is echoed verbatim; any other
/// origin, and a missing one, falls back to the configured default.
pub open spec fn allowed_origin(origin: Option<Seq<char>>, default: Seq<char>) -> Seq<char> {
    match origin {
        Some(o) => if localhost_origin(o) {
            o
        } else {
            default
        },
        None => default,
    }
}

/// Whether `s` begins with `p`, character for character.
fn str_starts_with(s: &str, p: &str) -> (b: bool)
    ensures
        b == (s@.len() >= p@.len() && s@.subrange(0, p@.len() as int) == p@),
{
    let n = p.unicode_len();
    if s.unicode_len() < n {
        return false;
    }
    let mut i: usize = 0;
    while i < n
        invariant
            n == p@.len(),
            s@.len() >= n,
            i <= n,
            forall|j: int| 0 <= j < i ==> s@[j] == p@[j],
        decreases n - i,
    {
        if s.get_char(i) != p.get_char(i) {
            proof {
                assert(s@.subrange(0, n as int)[i as int] == s@[i as int]);
            }
            return false;
        }
        i = i + 1;
    }
    proof {
        assert(s@.subrange(0, n as int) =~= p@);
    }
    true
}

/// Whether `s` and `p` hold the same characters.
fn str_equals(s: &str, p: &str) -> (b: bool)
    ensures
        b == (s@ == p@),
{
    if s.unicode_len() != p.unicode_len() {
        proof {
            assert(s@ == p@ ==> s@.len() == p@.len());
        }
        return false;
    }
    let r = str_starts_with(s, p);
    proof {
        if r {
            assert(s@.subrange(0, p@.len() as int) =~= s@);
        } else if s@ == p@ {
            assert(s@.subrange(0, p@.len() as int) =~= p@);
        }
    }
    r
}

/// What the handler can fail with: the accessor's own error, carried
/// through, or a serialization failure while writing the body. `respond`'s
/// contract rules the latter out: serializing the track never fails, so only
/// `Accessor` ever escapes.
#[derive(Debug)]
pub enum HandlerError {
    Accessor(lastfm::errors::Error),
    Serialize(serde_json::Error),
}

/// An HTTP response as the handler shapes it: a status code, the response
/// headers in order, and the body text.
#[derive(Debug)]
pub struct HttpResponse {
    pub status: u16,
    pub headers: Vec<(String, String)>,
    pub body: String,
}

/// The five response headers, in order, with `allow_origin` as the value of
/// `Access-Control-Allow-Origin`.
pub open spec fn response_headers_ok(h: Seq<(String, String)>, allow_origin: Seq<char>) -> bool {
    &&& h.len() == 5
    &&& h[0].0@ == "content-type"@ && h[0].1@ == "application/json"@
    &&& h[1].0@ == "Cache-Control"@ && h[1].1@ == "max-age=30"@
    &&& h[2].0@ == "Access-Control-Allow-Headers"@ && h[2].1@ == "Content-Type"@
    &&& h[3].0@ == "Access-Control-Allow-Methods"@ && h[3].1@ == "OPTIONS,GET"@
    &&& h[4].0@ == "Access-Control-Allow-Origin"@ && h[4].1@ == allow_origin
}

/// A successful response: status 200, the fixed headers with the given
/// allow-origin value, and the given body.
pub open spec fn response_ok(r: HttpResponse, allow_origin: Seq<char>, body: Seq<char>) -> bool {
    &&& r.status == 200
    &&& response_headers_ok(r.headers@, allow_origin)
    &&& r.body@ == body
}

/// Assembles the fixed-shape success response around the computed
/// allow-origin value and the body text.
fn build_response(allow_origin: String, body: String) -> (r: HttpResponse)
    ensures
        response_ok(r, allow_origin@, body@),
{
    let mut headers: Vec<(String, String)> = Vec::new();
    headers.push((String::from_str("content-type"), String::from_str("application/json")));
    headers.push((String::from_str("Cache-Control"), String::from_str("max-age=30")));
    headers.push((
        String::from_str("Access-Control-Allow-Headers"),
        String::from_str("Content-Type"),
    ));
    headers.push((
        String::from_str("Access-Control-Allow-Methods"),
        String::from_str("OPTIONS,GET"),
    ));
    headers.push((String::from_str("Access-Control-Allow-Origin"), allow_origin));
    HttpResponse { status: 200, headers, body }
}

/// Per-invocation configuration: the default value for the
/// `Access-Control-Allow-Origin` response header.
#[derive(Debug)]
pub struct Handler {
    pub cors_allow_origin: String,
}

impl Clone for Handler {
    fn clone(&self) -> (r: Self)
        ensures
            r.cors_allow_origin@ == self.cors_allow_origin@,
    {
        Handler { cors_allow_origin: self.cors_allow_origin.clone() }
    }
}

impl Handler {
    pub fn new(cors_allow_origin: String) -> (h: Handler)
        ensures
            h.cors_allow_origin == cors_allow_origin,
    {
        Handler { cors_allow_origin }
    }

    /// The value of the `Access-Control-Allow-Origin` response header for a
    /// request that carried `origin` (or none).
    pub fn select_allow_origin(&self, origin: Option<&str>) -> (r: String)
        ensures
            r@ == allowed_origin(origin_view(origin), self.cors_allow_origin@),
    {
        match origin {
            Some(o) => {
                if str_equals(o, "http://localhost") || str_starts_with(o, "http://localhost:") {
                    o.to_owned()
                } else {
                    self.cors_allow_origin.clone()
                }
            },
            None => self.cors_allow_origin.clone(),
        }
    }

    /// Maps one invocation onto a response: `origin` is the request's
    /// `Origin` header (absent, or undecodable, as `None`), `outcome` what
    /// the now-playing accessor returned. An accessor failure is carried
    /// through; a successful lookup always yields the fixed-shape 200
    /// response.
    pub fn respond(
        &self,
        origin: Option<&str>,
        outcome: Result<Option<lastfm::track::NowPlayingTrack>, lastfm::errors::Error>,
    ) -> (r: Result<HttpResponse, HandlerError>)
        ensures
            r is Ok <==> outcome is Ok,
            outcome is Err ==> r == Err::<HttpResponse, HandlerError>(
                HandlerError::Accessor(outcome->Err_0),
            ),
            outcome is Ok ==> response_ok(
                r->Ok_0,
                allowed_origin(origin_view(origin), self.cors_allow_origin@),
                response_body(outcome->Ok_0),
            ),
    {
        match outcome {
            Ok(now_playing) => {
                let payload = NowPlayingResponse { now_playing };
                match payload.to_json() {
                    Ok(body) => {
                        let allow_origin = self.select_allow_origin(origin);
                        Ok(build_response(allow_origin, body))
                    },
                    Err(e) => Err(HandlerError::Serialize(e)),
                }
            },
            Err(e) => Err(HandlerError::Accessor(e)),
        }
    }
}

/// The allow-origin policy in one statement: a missing `Origin` header and a
/// non-localhost origin both yield the configured default; a localhost
/// origin is echoed verbatim.
pub proof fn lemma_origin_policy(origin: Option<Seq<char>>, default: Seq<char>)
    ensures
        origin is None ==> allowed_origin(origin, default) == default,
        origin is Some && localhost_origin(origin->0) ==> allowed_origin(origin, default)
            == origin->0,
        origin is Some && !localhost_origin(origin->0) ==> allowed_origin(origin, default)
            == default,
{
}

} // verus!
