//! Track resolution against the SoundCloud API.
//!
//! The API answers resolution as JSON envelopes of shape
//! `{status, location}` rather than HTTP redirects, so a client must
//! follow the chain hop by hop: a public track reference resolves to a
//! canonical resource, that resource's metadata names a
//! stream-specific locator, and one more resolution yields the literal
//! byte-source URL. This module owns every decision of that chain —
//! which URL each hop fetches, which query parameters it carries, and
//! how a hop's failure is classified — while the network transport and
//! JSON decoding live with the caller.

use vstd::prelude::*;

verus! {

/// A resolution envelope: where the next hop lives.
pub struct Resource {
    pub location: String,
}

/// The uploader shown alongside a track.
pub struct User {
    pub username: String,
}

/// Track metadata, as the API reports it.
pub struct Track {
    pub duration: u32,
    pub genre: String,
    pub waveform_url: String,
    pub stream_url: String,
    pub title: String,
    pub user: User,
}

/// Waveform data for rendering: a grid of ordered sample heights.
pub struct Wave {
    pub width: u16,
    pub height: u16,
    pub samples: Vec<u16>,
}

/// Why a resolution hop failed. Any failing hop aborts the chain with
/// its kind.
#[derive(Clone, Copy, PartialEq, Eq, Structural, Debug)]
pub enum ResolveError {
    /// The credential was missing or not accepted.
    Auth,
    /// The network transport failed, or the remote answered outside
    /// the expected range.
    Transport,
    /// The response did not parse as the expected envelope.
    Parse,
    /// The referenced resource does not exist.
    NotFound,
}

/// One query parameter of a request.
pub struct QueryParam {
    pub name: String,
    pub value: String,
}

/// A request the caller's transport must perform: the URL, the query
/// parameters to append, and whether to identify the client through
/// its user agent.
pub struct Request {
    pub url: String,
    pub query: Vec<QueryParam>,
    pub user_agent: bool,
}

/// An API client: the embedded public client identifier and the API
/// base URL.
pub struct Client {
    pub client_id: String,
    pub url: String,
}

/// `s` with every non-overlapping match of `from`, found left to
/// right, replaced by `to` (meaningful for a non-empty `from`).
pub open spec fn replace_all(s: Seq<char>, from: Seq<char>, to: Seq<char>) -> Seq<char>
    decreases s.len(),
{
    if from.len() == 0 {
        s
    } else if s.len() < from.len() {
        s
    } else if s.subrange(0, from.len() as int) == from {
        to + replace_all(s.skip(from.len() as int), from, to)
    } else {
        seq![s[0]] + replace_all(s.skip(1), from, to)
    }
}

/// Relies on `str::replace`: replaces every non-overlapping match of
/// the pattern, found left to right, with the replacement.
#[verifier::external_body]
fn replace_str(s: &str, from: &str, to: &str) -> (r: String)
    requires
        from@.len() > 0,
    ensures
        r@ == replace_all(s@, from@, to@),
{
    s.replace(from, to)
}

impl Client {
    /// A client for the public API, carrying the embedded client
    /// identifier. The transport that performs its requests must not
    /// follow redirects: the API's envelopes, not the transport, say
    /// where the next hop lives.
    pub fn new() -> (c: Client)
        ensures
            c.client_id@ == "nWYlHdW5jX1OyNQ9pipPhlUK9xDX8XFF"@,
            c.url@ == "https://api.soundcloud.com"@,
    {
        Client {
            client_id: String::from_str("nWYlHdW5jX1OyNQ9pipPhlUK9xDX8XFF"),
            url: String::from_str("https://api.soundcloud.com"),
        }
    }

    /// The first hop of any track lookup: resolve a user-facing track
    /// reference at `{base}/resolve`, carrying the credential and the
    /// reference as query parameters.
    pub fn resolve_request(&self, track_ref: &str) -> (r: Request)
        ensures
            r.url@ == self.url@ + "/resolve"@,
            r.query@.len() == 2,
            r.query@[0].name@ == "client_id"@,
            r.query@[0].value@ == self.client_id@,
            r.query@[1].name@ == "url"@,
            r.query@[1].value@ == track_ref@,
            r.user_agent,
    {
        let mut url = self.url.clone();
        url.append("/resolve");
        let mut query: Vec<QueryParam> = Vec::new();
        query.push(
            QueryParam {
                name: String::from_str("client_id"),
                value: self.client_id.clone(),
            },
        );
        query.push(
            QueryParam { name: String::from_str("url"), value: String::from_str(track_ref) },
        );
        Request { url, query, user_agent: true }
    }

    /// A hop against a location the chain has already resolved: fetch
    /// it directly, carrying the credential.
    pub fn located_request(&self, location: &str) -> (r: Request)
        ensures
            r.url@ == location@,
            r.query@.len() == 1,
            r.query@[0].name@ == "client_id"@,
            r.query@[0].value@ == self.client_id@,
            r.user_agent,
    {
        let mut query: Vec<QueryParam> = Vec::new();
        query.push(
            QueryParam {
                name: String::from_str("client_id"),
                value: self.client_id.clone(),
            },
        );
        Request { url: String::from_str(location), query, user_agent: true }
    }

    /// The final hop: a raw fetch of the literal byte-source URL, with
    /// no credential and no client identification.
    pub fn raw_request(&self, location: &str) -> (r: Request)
        ensures
            r.url@ == location@,
            r.query@.len() == 0,
            !r.user_agent,
    {
        Request { url: String::from_str(location), query: Vec::new(), user_agent: false }
    }

    /// The waveform fetch: the track's waveform image URL with its
    /// `.png` occurrences rewritten to `.json`, with no credential.
    pub fn wave_request(&self, track: &Track) -> (r: Request)
        ensures
            r.url@ == replace_all(track.waveform_url@, ".png"@, ".json"@),
            r.query@.len() == 0,
            r.user_agent,
    {
        proof {
            reveal_strlit(".png");
        }
        let url = replace_str(track.waveform_url.as_str(), ".png", ".json");
        Request { url, query: Vec::new(), user_agent: true }
    }
}

/// Classify the HTTP status a hop answered with. A success status lets
/// the chain continue; a credential failure, a missing resource, and
/// every other failure each abort it with their own kind.
pub fn classify_status(status: u16) -> (r: Result<(), ResolveError>)
    ensures
        200 <= status < 300 ==> r == Ok::<(), ResolveError>(()),
        status == 401 || status == 403 ==> r == Err::<(), ResolveError>(ResolveError::Auth),
        status == 404 ==> r == Err::<(), ResolveError>(ResolveError::NotFound),
        !(200 <= status < 300) && status != 401 && status != 403 && status != 404 ==> r == Err::<
            (),
            ResolveError,
        >(ResolveError::Transport),
{
    if 200 <= status && status < 300 {
        Ok(())
    } else if status == 401 || status == 403 {
        Err(ResolveError::Auth)
    } else if status == 404 {
        Err(ResolveError::NotFound)
    } else {
        Err(ResolveError::Transport)
    }
}

} // verus!
