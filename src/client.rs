use vstd::prelude::*;
use crate::auth::{Auth, auth_header};
use crate::error::CoreError;
use crate::json::{encode_json, json_bytes_of};
use crate::middleware::{Middleware, apply_all, apply_chain};
use crate::request::{Method, Request, RequestView, body_view, has_header, send_method};
use crate::retry::{EngineView, RetryEngine};

verus! {

/// The configuration of a client: base URL, the active authentication scheme,
/// if any, and the middleware chain in registration order.
pub struct RustCore {
    base_url: String,
    auth: Option<Auth>,
    middleware: Vec<Middleware>,
}

pub struct CoreView {
    pub base_url: Seq<char>,
    pub auth: Option<Auth>,
    pub middleware: Seq<Middleware>,
}

impl View for RustCore {
    type V = CoreView;

    closed spec fn view(&self) -> CoreView {
        CoreView { base_url: self.base_url@, auth: self.auth, middleware: self.middleware@ }
    }
}

/// The configuration with its scheme replaced.
pub open spec fn with_auth(c: CoreView, a: Auth) -> CoreView {
    CoreView { auth: Some(a), ..c }
}

/// A request with only its credentials attached, if a scheme is active.
pub open spec fn authenticated(c: CoreView, r: RequestView) -> RequestView {
    match c.auth {
        Some(a) => RequestView { headers: r.headers.push(auth_header(a)), ..r },
        None => r,
    }
}

/// A request with a body is marked as JSON unless a header already says its
/// content type.
pub open spec fn typed(r: RequestView) -> RequestView {
    if r.body is Some && !has_header(r.headers, "content-type"@) {
        RequestView { headers: r.headers.push(("content-type"@, "application/json"@)), ..r }
    } else {
        r
    }
}

/// The request built for a call: the target is the base URL followed by the
/// path verbatim; credentials come first, then the middleware chain.
pub open spec fn built_request(
    c: CoreView,
    method: Method,
    path: Seq<char>,
    body: Option<Seq<u8>>,
) -> RequestView {
    let bare = RequestView { method, url: c.base_url + path, headers: seq![], body };
    apply_chain(c.middleware, typed(authenticated(c, bare)))
}

/// A call that has not made an attempt yet.
pub open spec fn fresh_call(r: RequestView) -> EngineView {
    EngineView { request: r, attempts: 0, finished: false }
}

impl RustCore {
    /// A client for the given base URL, with no scheme and no middleware.
    pub fn new(base_url: &str) -> (r: RustCore)
        ensures
            r@ == (CoreView { base_url: base_url@, auth: None, middleware: seq![] }),
    {
        RustCore { base_url: String::from_str(base_url), auth: None, middleware: Vec::new() }
    }

    /// Replaces the active scheme, whatever it was.
    pub fn set_auth(&mut self, auth: Auth)
        ensures
            final(self)@ == with_auth(old(self)@, auth),
    {
        self.auth = Some(auth);
    }

    /// Appends a transform to the end of the chain.
    pub fn add_middleware(&mut self, middleware: Middleware)
        ensures
            final(self)@ == (CoreView {
                middleware: old(self)@.middleware.push(middleware),
                ..old(self)@
            }),
    {
        self.middleware.push(middleware);
    }

    fn build(&self, method: Method, path: &str, body: Option<Vec<u8>>) -> (r: Request)
        ensures
            r@ == built_request(self@, method, path@, body_view(body)),
    {
        let mut url = self.base_url.clone();
        url.append(path);
        let mut req = Request { method, url, headers: Vec::new(), body };
        assert(req@.headers =~= seq![]);
        match &self.auth {
            Some(a) => {
                let h = a.header();
                req.push_header(h.name, h.value);
            },
            None => {},
        }
        if req.body.is_some() && !req.contains_header("content-type") {
            req.push_header(String::from_str("content-type"), String::from_str("application/json"));
        }
        apply_all(&self.middleware, &mut req);
        req
    }

    /// Starts a GET of `path`.
    pub fn prepare_fetch(&self, path: &str) -> (r: RetryEngine)
        ensures
            r.wf(),
            r@ == fresh_call(built_request(self@, Method::Get, path@, None)),
    {
        RetryEngine::new(self.build(Method::Get, path, None))
    }

    /// Starts a `POST` or `PUT` of `path` with an encoded JSON body; any
    /// other method is refused before a request is built.
    pub fn prepare_send_bytes(&self, path: &str, method: &str, body: Vec<u8>) -> (r: Result<
        RetryEngine,
        CoreError,
    >)
        ensures
            send_method(method@) is None <==> r == Err::<RetryEngine, CoreError>(
                CoreError::UnsupportedMethod,
            ),
            send_method(method@) matches Some(m) ==> (r matches Ok(e) && e.wf() && e@ == fresh_call(
                built_request(self@, m, path@, Some(body@)),
            )),
    {
        match Method::for_send(method) {
            Some(m) => Ok(RetryEngine::new(self.build(m, path, Some(body)))),
            None => Err(CoreError::UnsupportedMethod),
        }
    }

    /// Starts a `POST` or `PUT` of `path` with `data` as its JSON body; any
    /// other method is refused before the body is encoded.
    pub fn prepare_send(&self, path: &str, method: &str, data: &serde_json::Value) -> (r: Result<
        RetryEngine,
        CoreError,
    >)
        ensures
            send_method(method@) is None <==> r == Err::<RetryEngine, CoreError>(
                CoreError::UnsupportedMethod,
            ),
            send_method(method@) matches Some(m) ==> (r matches Ok(e) && e.wf() && e@ == fresh_call(
                built_request(self@, m, path@, Some(json_bytes_of(*data))),
            )),
    {
        if Method::for_send(method).is_none() {
            return Err(CoreError::UnsupportedMethod);
        }
        match encode_json(data) {
            Ok(body) => self.prepare_send_bytes(path, method, body),
            Err(_) => Err(CoreError::Encode),
        }
    }
}

/// Replacing the scheme overwrites it: a client that had `first` and then
/// `second` set builds the same requests as one that only had `second`.
pub proof fn lemma_auth_overwrites(
    c: CoreView,
    first: Auth,
    second: Auth,
    method: Method,
    path: Seq<char>,
    body: Option<Seq<u8>>,
)
    ensures
        with_auth(with_auth(c, first), second) == with_auth(c, second),
        built_request(with_auth(with_auth(c, first), second), method, path, body)
            == built_request(with_auth(c, second), method, path, body),
{
}

/// With no middleware, a client given a bearer token and then basic
/// credentials sends a GET whose only header is the basic credentials one.
pub proof fn lemma_bearer_then_basic(
    c: CoreView,
    token: String,
    user: String,
    password: String,
    path: Seq<char>,
)
    requires
        c.middleware.len() == 0,
    ensures
        built_request(
            with_auth(with_auth(c, Auth::Bearer(token)), Auth::Basic(user, password)),
            Method::Get,
            path,
            None,
        ).headers == seq![auth_header(Auth::Basic(user, password))],
{
    let c2 = with_auth(with_auth(c, Auth::Bearer(token)), Auth::Basic(user, password));
    let bare = RequestView { method: Method::Get, url: c2.base_url + path, headers: seq![], body: None };
    assert(authenticated(c2, bare).headers =~= seq![auth_header(Auth::Basic(user, password))]);
}

} // verus!
