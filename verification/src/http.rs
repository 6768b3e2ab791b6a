//! Building one outgoing HTTP call and classifying one received call.
//!
//! A [`Request`] is assembled builder-style: method and resolved URL first,
//! then headers and query parameters. A [`Response`] wraps a received status
//! and body together with the accepted-status set that decides, at parse
//! time, whether the body is decoded or the response becomes an error.

use vstd::prelude::*;
use vstd::string::StringExecFns;

use crate::error::ClientError;

verus! {

/// The HTTP methods this layer uses: GET and POST only.
#[derive(Clone, Copy, Debug, PartialEq, Eq, Structural)]
pub enum Method {
    Get,
    Post,
}

/// The URL that resolving `path` against the absolute URL `base` yields;
/// a function of the two strings alone.
pub uninterp spec fn url_join(base: Seq<char>, path: Seq<char>) -> Seq<char>;

/// Whether resolving `path` against the absolute URL `base` succeeds;
/// a function of the two strings alone.
pub uninterp spec fn url_join_ok(base: Seq<char>, path: Seq<char>) -> bool;

/// Relies on url::Url::parse and url::Url::join: parsing `base` as an
/// absolute URL and resolving `path` against it is deterministic in the two
/// strings, and as_str returns the resolved URL's serialization.
#[verifier::external_body]
fn resolve_url(base: &str, path: &str) -> (r: Option<String>)
    ensures
        r is Some <==> url_join_ok(base@, path@),
        r matches Some(u) ==> u@ == url_join(base@, path@),
{
    match url::Url::parse(base) {
        Ok(b) => match b.join(path) {
            Ok(u) => Some(u.as_str().to_owned()),
            Err(_) => None,
        },
        Err(_) => None,
    }
}

/// The (name, value) pairs as character sequences, in order.
pub open spec fn pair_views(ps: Seq<(String, String)>) -> Seq<(Seq<char>, Seq<char>)> {
    ps.map_values(|p: (String, String)| (p.0@, p.1@))
}

/// One outgoing HTTP call: method, resolved URL, headers and query
/// parameters, accumulated builder-style and consumed by dispatch.
/// Dispatching (the blocking network send) is the embedding application's
/// concern; it reads these fields as plain values.
#[derive(Debug)]
pub struct Request {
    pub method: Method,
    pub url: String,
    pub headers: Vec<(String, String)>,
    pub params: Vec<(String, String)>,
}

impl Request {
    /// A request holding `method` and the URL `u`, and nothing else yet.
    pub open spec fn is_fresh(self, method: Method, u: Seq<char>) -> bool {
        &&& self.method == method
        &&& self.url@ == u
        &&& self.headers@.len() == 0
        &&& self.params@.len() == 0
    }

    /// Builds a request for `path` resolved against `base`. The resolution
    /// must succeed; a malformed path is a programmer error, and `try_new`
    /// is the checked form.
    pub fn new(method: Method, base: &str, path: &str) -> (r: Request)
        requires
            url_join_ok(base@, path@),
        ensures
            r.is_fresh(method, url_join(base@, path@)),
    {
        let u = resolve_url(base, path);
        Request::from_url(method, u.unwrap())
    }

    /// The checked form of `new`: `None` exactly when resolving `path`
    /// against `base` fails.
    pub fn try_new(method: Method, base: &str, path: &str) -> (r: Option<Request>)
        ensures
            r is Some <==> url_join_ok(base@, path@),
            r matches Some(req) ==> req.is_fresh(method, url_join(base@, path@)),
    {
        match resolve_url(base, path) {
            Some(u) => Some(Request::from_url(method, u)),
            None => None,
        }
    }

    /// Builds a request for an already resolved URL.
    pub fn from_url(method: Method, url: String) -> (r: Request)
        ensures
            r.is_fresh(method, url@),
    {
        Request { method, url, headers: Vec::new(), params: Vec::new() }
    }

    /// Adds one header; repeated calls accumulate in order.
    pub fn header(self, key: &str, value: String) -> (r: Request)
        ensures
            r.method == self.method,
            r.url@ == self.url@,
            r.params@ == self.params@,
            pair_views(r.headers@) == pair_views(self.headers@).push((key@, value@)),
    {
        let mut r = self;
        r.headers.push((key.to_owned(), value));
        proof {
            assert(pair_views(r.headers@) =~= pair_views(self.headers@).push((key@, value@)));
        }
        r
    }

    /// Sets the `Authorization` header to the bearer scheme over `token`.
    pub fn bearer_auth(self, token: &str) -> (r: Request)
        ensures
            r.method == self.method,
            r.url@ == self.url@,
            r.params@ == self.params@,
            pair_views(r.headers@) == pair_views(self.headers@).push(
                ("Authorization"@, "Bearer "@ + token@),
            ),
    {
        let mut value: String = "Bearer ".to_owned();
        value.append(token);
        self.header("Authorization", value)
    }

    /// Adds one query parameter; repeated calls accumulate in order.
    pub fn param(self, key: &str, value: &str) -> (r: Request)
        ensures
            r.method == self.method,
            r.url@ == self.url@,
            r.headers@ == self.headers@,
            pair_views(r.params@) == pair_views(self.params@).push((key@, value@)),
    {
        let mut r = self;
        r.params.push((key.to_owned(), value.to_owned()));
        proof {
            assert(pair_views(r.params@) =~= pair_views(self.params@).push((key@, value@)));
        }
        r
    }
}

/// A status is accepted iff it is a member of the accepted-status set.
pub open spec fn accepts(states: Seq<u16>, status: u16) -> bool {
    states.contains(status)
}

/// Membership of `status` in the accepted-status set.
fn contains_status(states: &Vec<u16>, status: u16) -> (r: bool)
    ensures
        r == accepts(states@, status),
{
    let mut i: usize = 0;
    while i < states.len()
        invariant
            0 <= i <= states@.len(),
            forall|j: int| 0 <= j < i ==> states@[j] != status,
        decreases states@.len() - i,
    {
        if states[i] == status {
            proof {
                assert(states@[i as int] == status);
            }
            return true;
        }
        i += 1;
    }
    false
}

/// Widening the accepted-status set changes the classification of exactly
/// the statuses the widening adds: a status classifies differently against
/// `wide` than against `narrow` iff `wide` holds it and `narrow` does not.
pub proof fn lemma_widen_accepts(narrow: Seq<u16>, wide: Seq<u16>, status: u16)
    requires
        forall|j: int| 0 <= j < narrow.len() ==> wide.contains(#[trigger] narrow[j]),
    ensures
        (accepts(wide, status) != accepts(narrow, status)) <==> (wide.contains(status)
            && !narrow.contains(status)),
{
    if narrow.contains(status) {
        let j = choose|j: int| 0 <= j < narrow.len() && narrow[j] == status;
        assert(wide.contains(narrow[j]));
    }
}

/// One received HTTP call: status, raw body, and the accepted-status set
/// that decides whether parsing may be attempted.
#[derive(Debug)]
pub struct Response {
    pub status: u16,
    pub body: Vec<u8>,
    pub parse_states: Vec<u16>,
}

impl Response {
    /// Wraps a received status and body; the accepted-status set defaults
    /// to 200 (OK) and 201 (Created).
    pub fn new(status: u16, body: Vec<u8>) -> (r: Response)
        ensures
            r.status == status,
            r.body@ == body@,
            r.parse_states@ == seq![200u16, 201u16],
    {
        let r = Response { status, body, parse_states: vec![200, 201] };
        proof {
            assert(r.parse_states@ =~= seq![200u16, 201u16]);
        }
        r
    }

    /// Replaces the accepted-status set, e.g. to treat 204 as a success for
    /// one endpoint.
    pub fn accept_states(self, states: Vec<u16>) -> (r: Response)
        ensures
            r.status == self.status,
            r.body@ == self.body@,
            r.parse_states@ == states@,
    {
        Response { status: self.status, body: self.body, parse_states: states }
    }

    /// The raw status code, for callers that branch without parsing.
    pub fn status(&self) -> (r: u16)
        ensures
            r == self.status,
    {
        self.status
    }

    /// Consumes the response into the rejected-status error, keeping status
    /// and raw body for diagnostics.
    pub fn into_error(self) -> (r: ClientError)
        ensures
            r matches ClientError::Status(st, b) && st == self.status && b@ == self.body@,
    {
        ClientError::Status(self.status, self.body)
    }

    /// Classifies by status first, then decodes: a status inside the
    /// accepted set has the body decoded as JSON into `J` (a failure there
    /// is a decode error); a status outside it becomes the rejected-status
    /// error, whatever the body holds.
    pub fn parse_json<J: serde::de::DeserializeOwned>(self) -> (r: Result<J, ClientError>)
        ensures
            !accepts(self.parse_states@, self.status) ==> (r matches Err(e) && (e matches
            ClientError::Status(st, b) && st == self.status && b@ == self.body@)),
            accepts(self.parse_states@, self.status) ==> r is Ok || (r matches Err(e)
                && e is Decode),
    {
        if contains_status(&self.parse_states, self.status) {
            match crate::json::decode_slice::<J>(self.body.as_slice()) {
                Ok(v) => Ok(v),
                Err(e) => Err(ClientError::Decode(crate::json::decode_error_text(&e))),
            }
        } else {
            Err(self.into_error())
        }
    }
}

} // verus!
