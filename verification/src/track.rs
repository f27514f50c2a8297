//! The currently playing track, its JSON serialization, and the framing of
//! the endpoint's response body around it.
//!
//! The track itself is a value of the `lastfm` crate, carried through
//! unread; only its JSON text, produced by `serde_json`, enters the body.

use vstd::prelude::*;
use vstd::string::StringExecFns;

verus! {

/// The `lastfm` crate's currently-playing track, carried through opaquely.
#[verifier::external_type_specification]
#[verifier::external_body]
pub struct ExNowPlayingTrack(lastfm::track::NowPlayingTrack);

/// The `lastfm` crate's client error, carried through opaquely.
#[verifier::external_type_specification]
#[verifier::external_body]
pub struct ExLastfmError(lastfm::errors::Error);

/// The `serde_json` serialization error, carried through opaquely.
#[verifier::external_type_specification]
#[verifier::external_body]
pub struct ExSerdeJsonError(serde_json::Error);

/// The JSON text that `serde_json` produces for a track: a function of the
/// track's fields alone.
pub uninterp spec fn track_json_of(t: lastfm::track::NowPlayingTrack) -> Seq<char>;

/// Relies on `serde_json::to_string` on `lastfm::track::NowPlayingTrack`: the
/// produced text depends on the track's fields alone (the type serializes
/// through plain struct and string fields, in declaration order), and the
/// call cannot fail — serialization errors come only from a `Serialize` impl
/// that reports one or from a map with non-string keys, and the track's
/// derived impl writes nothing but strings and options of strings into an
/// in-memory buffer.
#[verifier::external_body]
fn track_json(t: &lastfm::track::NowPlayingTrack) -> (r: Result<String, serde_json::Error>)
    ensures
        r is Ok,
        r->Ok_0@ == track_json_of(*t),
{
    serde_json::to_string(t)
}

/// The response body that carries `j` as the value of the `now_playing`
/// field.
pub open spec fn framed_body(j: Seq<char>) -> Seq<char> {
    "{\"now_playing\":"@ + j + "}"@
}

/// The response body for an optional track: `null` when none is playing, the
/// track's JSON text otherwise.
pub open spec fn response_body(np: Option<lastfm::track::NowPlayingTrack>) -> Seq<char> {
    match np {
        None => framed_body("null"@),
        Some(t) => framed_body(track_json_of(t)),
    }
}

/// With no track playing, the body is exactly `{"now_playing":null}`.
pub proof fn lemma_null_body_literal()
    ensures
        response_body(None) == "{\"now_playing\":null}"@,
{
    reveal_strlit("{\"now_playing\":");
    reveal_strlit("null");
    reveal_strlit("}");
    reveal_strlit("{\"now_playing\":null}");
    assert(framed_body("null"@) =~= "{\"now_playing\":null}"@);
}

/// The endpoint's response payload: the currently playing track, if any.
#[derive(Debug)]
pub struct NowPlayingResponse {
    pub now_playing: Option<lastfm::track::NowPlayingTrack>,
}

impl NowPlayingResponse {
    /// The JSON text of this payload. Serialization never fails: the track
    /// serializes through plain string fields.
    pub fn to_json(&self) -> (r: Result<String, serde_json::Error>)
        ensures
            r is Ok,
            r->Ok_0@ == response_body(self.now_playing),
    {
        let mut s = String::from_str("{\"now_playing\":");
        match &self.now_playing {
            None => {
                s.append("null");
            },
            Some(t) => {
                match track_json(t) {
                    Ok(j) => {
                        s.append(j.as_str());
                    },
                    Err(e) => {
                        return Err(e);
                    },
                }
            },
        }
        s.append("}");
        Ok(s)
    }
}

} // verus!
