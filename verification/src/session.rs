//! The credential- and tenant-context-holding session, sole factory for
//! authenticated requests.

use vstd::prelude::*;

use crate::http::{pair_views, url_join, url_join_ok, Method, Request};
use crate::persistence::{opt_text_eq, State};

verus! {

/// The production origin every session resolves paths against unless another
/// origin is injected at construction.
pub open spec fn production_base() -> Seq<char> {
    "https://app.rippling.com/api/"@
}

/// Holds the bearer credential and the tenant context (company id, role id),
/// and issues requests that carry them. The company/role pair is unset until
/// the combined setter is called; the two fields are not forced to move
/// together after that.
#[derive(Debug)]
pub struct Session {
    pub access_token: String,
    pub company: Option<String>,
    pub role: Option<String>,
    pub base_url: String,
}

/// The headers a session issues, in order: the bearer header always, then
/// the `company` and `role` headers exactly when those fields are set.
pub open spec fn session_headers(s: Session) -> Seq<(Seq<char>, Seq<char>)> {
    seq![("Authorization"@, "Bearer "@ + s.token())] + (match s.company {
        Some(c) => seq![("company"@, c@)],
        None => Seq::<(Seq<char>, Seq<char>)>::empty(),
    }) + (match s.role {
        Some(r) => seq![("role"@, r@)],
        None => Seq::<(Seq<char>, Seq<char>)>::empty(),
    })
}

/// The record `st` persists exactly the session's token, company and role.
pub open spec fn persisted_state(s: Session, st: State) -> bool {
    &&& st.access_token matches Some(t) && t@ == s.token()
    &&& opt_text_eq(st.company_id, s.company)
    &&& opt_text_eq(st.role_id, s.role)
}

/// The session `s` is exactly what restoring from the record `st` yields.
pub open spec fn restored_session(st: State, s: Session) -> bool {
    &&& st.access_token matches Some(t) && s.token() == t@
    &&& opt_text_eq(s.company, st.company_id)
    &&& opt_text_eq(s.role, st.role_id)
    &&& s.base() == production_base()
}

impl Session {
    /// The bearer credential.
    pub open spec fn token(&self) -> Seq<char> {
        self.access_token@
    }

    /// The origin paths are resolved against.
    pub open spec fn base(&self) -> Seq<char> {
        self.base_url@
    }

    /// A session exists only around a non-empty credential.
    pub open spec fn wf(&self) -> bool {
        self.token().len() > 0
    }

    /// A fresh session against the production origin; company and role are
    /// unset until the combined setter is called.
    pub fn new(token: String) -> (r: Session)
        requires
            token@.len() > 0,
        ensures
            r.token() == token@,
            r.company is None,
            r.role is None,
            r.base() == production_base(),
            r.wf(),
    {
        Session {
            access_token: token,
            company: None,
            role: None,
            base_url: "https://app.rippling.com/api/".to_owned(),
        }
    }

    /// A fresh session against another origin (a test or mock server).
    pub fn new_with_base(token: String, base_url: String) -> (r: Session)
        requires
            token@.len() > 0,
        ensures
            r.token() == token@,
            r.company is None,
            r.role is None,
            r.base() == base_url@,
            r.wf(),
    {
        Session { access_token: token, company: None, role: None, base_url }
    }

    /// Restores a session from a persisted record. The record must hold a
    /// token: a session without one cannot exist, and the embedding
    /// application aborts on a tokenless record rather than recovering.
    pub fn load(state: State) -> (r: Session)
        requires
            state.access_token is Some,
        ensures
            restored_session(state, r),
    {
        Session {
            access_token: state.access_token.unwrap(),
            company: state.company_id,
            role: state.role_id,
            base_url: "https://app.rippling.com/api/".to_owned(),
        }
    }

    /// The record that persists the session: token, company and role,
    /// overwriting any prior stored state unconditionally once written.
    pub fn save(&self) -> (r: State)
        ensures
            persisted_state(*self, r),
    {
        State {
            access_token: Some(self.access_token.clone()),
            company_id: clone_opt(&self.company),
            role_id: clone_opt(&self.role),
        }
    }

    /// Sets company and role together; last write wins.
    pub fn set_company_and_role(&mut self, company: String, role: String)
        ensures
            final(self).company == Some(company),
            final(self).role == Some(role),
            final(self).token() == old(self).token(),
            final(self).base() == old(self).base(),
    {
        self.company = Some(company);
        self.role = Some(role);
    }

    /// The current company id, if set.
    pub fn company(&self) -> (r: Option<&str>)
        ensures
            r is Some <==> self.company is Some,
            r matches Some(c) ==> c@ == self.company.unwrap()@,
    {
        match &self.company {
            Some(c) => Some(c.as_str()),
            None => None,
        }
    }

    /// The current role id, if set.
    pub fn role(&self) -> (r: Option<&str>)
        ensures
            r is Some <==> self.role is Some,
            r matches Some(c) ==> c@ == self.role.unwrap()@,
    {
        match &self.role {
            Some(c) => Some(c.as_str()),
            None => None,
        }
    }

    /// Everything a request this session issues for `path` holds: the
    /// method, the URL resolved against the session's origin, the session's
    /// headers, and no query parameters yet.
    pub open spec fn issued(&self, r: Request, method: Method, path: Seq<char>) -> bool {
        &&& r.method == method
        &&& r.url@ == url_join(self.base(), path)
        &&& pair_views(r.headers@) == session_headers(*self)
        &&& r.params@.len() == 0
    }

    /// A GET request for `path`, carrying this session's headers. The path
    /// must resolve against the session's origin; `try_get` is the checked
    /// form.
    pub fn get(&self, path: &str) -> (r: Request)
        requires
            url_join_ok(self.base(), path@),
        ensures
            self.issued(r, Method::Get, path@),
    {
        self.request(Method::Get, path)
    }

    /// The checked form of `get`: `None` exactly when `path` does not
    /// resolve against the session's origin.
    pub fn try_get(&self, path: &str) -> (r: Option<Request>)
        ensures
            r is Some <==> url_join_ok(self.base(), path@),
            r matches Some(req) ==> self.issued(req, Method::Get, path@),
    {
        match Request::try_new(Method::Get, self.base_url.as_str(), path) {
            Some(_) => Some(self.get(path)),
            None => None,
        }
    }

    /// A POST request for `path`, carrying this session's headers. The path
    /// must resolve against the session's origin; `try_post` is the checked
    /// form.
    pub fn post(&self, path: &str) -> (r: Request)
        requires
            url_join_ok(self.base(), path@),
        ensures
            self.issued(r, Method::Post, path@),
    {
        self.request(Method::Post, path)
    }

    /// The checked form of `post`: `None` exactly when `path` does not
    /// resolve against the session's origin.
    pub fn try_post(&self, path: &str) -> (r: Option<Request>)
        ensures
            r is Some <==> url_join_ok(self.base(), path@),
            r matches Some(req) ==> self.issued(req, Method::Post, path@),
    {
        match Request::try_new(Method::Post, self.base_url.as_str(), path) {
            Some(_) => Some(self.post(path)),
            None => None,
        }
    }

    /// Builds the request every public factory returns: bearer header
    /// always, `company` and `role` headers exactly when set.
    fn request(&self, method: Method, path: &str) -> (r: Request)
        requires
            url_join_ok(self.base(), path@),
        ensures
            self.issued(r, method, path@),
    {
        let mut b = Request::new(method, self.base_url.as_str(), path).bearer_auth(
            self.access_token.as_str(),
        );
        if let Some(value) = &self.company {
            b = b.header("company", value.clone());
        }
        if let Some(value) = &self.role {
            b = b.header("role", value.clone());
        }
        proof {
            assert(pair_views(b.headers@) =~= session_headers(*self));
        }
        b
    }
}

/// There is a header named `name` among the (name, value) pairs `hs`.
pub open spec fn has_header(hs: Seq<(Seq<char>, Seq<char>)>, name: Seq<char>) -> bool {
    exists|i: int| 0 <= i < hs.len() && (#[trigger] hs[i]).0 == name
}

/// Every session-issued request carries the bearer header; it carries the
/// `company` and `role` headers iff the session holds those fields, and
/// omits them entirely otherwise.
pub proof fn lemma_session_headers(s: Session)
    ensures
        has_header(session_headers(s), "Authorization"@),
        has_header(session_headers(s), "company"@) <==> s.company is Some,
        has_header(session_headers(s), "role"@) <==> s.role is Some,
{
    reveal_strlit("Authorization");
    reveal_strlit("company");
    reveal_strlit("role");
    let hs = session_headers(s);
    assert(hs[0].0 == "Authorization"@);
    assert("Authorization"@.len() == 13);
    assert("company"@.len() == 7);
    assert("role"@.len() == 4);
    match (s.company, s.role) {
        (Some(_), Some(_)) => {
            assert(hs[1].0 == "company"@);
            assert(hs[2].0 == "role"@);
        },
        (Some(_), None) => {
            assert(hs[1].0 == "company"@);
            assert(forall|i: int| 0 <= i < hs.len() ==> (#[trigger] hs[i]).0 != "role"@);
        },
        (None, Some(_)) => {
            assert(hs[1].0 == "role"@);
            assert(forall|i: int| 0 <= i < hs.len() ==> (#[trigger] hs[i]).0 != "company"@);
        },
        (None, None) => {
            assert(forall|i: int| 0 <= i < hs.len() ==> (#[trigger] hs[i]).0 != "company"@);
            assert(forall|i: int| 0 <= i < hs.len() ==> (#[trigger] hs[i]).0 != "role"@);
        },
    }
}

/// Round trip: persisting a session's state and restoring a new session
/// from the persisted record reproduces the token, company and role.
pub proof fn lemma_save_load_roundtrip(s1: Session, st: State, s2: Session)
    requires
        persisted_state(s1, st),
        restored_session(st, s2),
    ensures
        s2.token() == s1.token(),
        opt_text_eq(s2.company, s1.company),
        opt_text_eq(s2.role, s1.role),
{
}

/// A copy of an optional string with the same text.
fn clone_opt(o: &Option<String>) -> (r: Option<String>)
    ensures
        opt_text_eq(r, *o),
{
    match o {
        Some(s) => Some(s.clone()),
        None => None,
    }
}

} // verus!
