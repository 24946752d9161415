use vstd::prelude::*;
use crate::text::{names_eq, names_match};

verus! {

/// The HTTP methods that the client issues.
#[derive(PartialEq, Eq, Structural, Clone, Copy, Debug)]
pub enum Method {
    Get,
    Post,
    Put,
}

/// One header line, kept with its name exactly as given.
#[derive(Debug)]
pub struct Header {
    pub name: String,
    pub value: String,
}

/// A transport-ready request.
#[derive(Debug)]
pub struct Request {
    pub method: Method,
    pub url: String,
    pub headers: Vec<Header>,
    pub body: Option<Vec<u8>>,
}

/// The mathematical model of a header list: (name, value) pairs in order.
pub type HeadersView = Seq<(Seq<char>, Seq<char>)>;

/// The mathematical model of a request.
pub struct RequestView {
    pub method: Method,
    pub url: Seq<char>,
    pub headers: HeadersView,
    pub body: Option<Seq<u8>>,
}

pub open spec fn header_view(h: Header) -> (Seq<char>, Seq<char>) {
    (h.name@, h.value@)
}

pub open spec fn headers_view(hs: Seq<Header>) -> HeadersView {
    hs.map_values(|h: Header| header_view(h))
}

pub open spec fn body_view(b: Option<Vec<u8>>) -> Option<Seq<u8>> {
    match b {
        Some(v) => Some(v@),
        None => None,
    }
}

impl View for Request {
    type V = RequestView;

    open spec fn view(&self) -> RequestView {
        RequestView {
            method: self.method,
            url: self.url@,
            headers: headers_view(self.headers@),
            body: body_view(self.body),
        }
    }
}

/// Whether a header list holds a header with the given name, compared
/// without regard to ASCII case.
pub open spec fn has_header(hs: HeadersView, name: Seq<char>) -> bool {
    exists|i: int| 0 <= i < hs.len() && names_match(#[trigger] hs[i].0, name)
}

/// The header list without any header of the given name (compared without
/// regard to ASCII case), order kept.
pub open spec fn without_header(hs: HeadersView, name: Seq<char>) -> HeadersView
    decreases hs.len(),
{
    if hs.len() == 0 {
        hs
    } else if names_match(hs.last().0, name) {
        without_header(hs.drop_last(), name)
    } else {
        without_header(hs.drop_last(), name).push(hs.last())
    }
}

impl Request {
    /// Appends a header after all present ones.
    pub fn push_header(&mut self, name: String, value: String)
        ensures
            final(self)@ == (RequestView {
                headers: old(self)@.headers.push((name@, value@)),
                ..old(self)@
            }),
    {
        let ghost before = self.headers@;
        self.headers.push(Header { name, value });
        assert(headers_view(self.headers@) =~= headers_view(before).push((name@, value@)));
    }

    /// Whether a header of this name is present, ignoring ASCII case.
    pub fn contains_header(&self, name: &str) -> (r: bool)
        ensures
            r == has_header(self@.headers, name@),
    {
        let mut i: usize = 0;
        while i < self.headers.len()
            invariant
                i <= self.headers@.len(),
                forall|j: int| 0 <= j < i ==> !names_match(#[trigger] self.headers@[j].name@, name@),
            decreases self.headers@.len() - i,
        {
            if names_eq(self.headers[i].name.as_str(), name) {
                assert(self@.headers[i as int].0 == self.headers@[i as int].name@);
                return true;
            }
            i = i + 1;
        }
        assert forall|j: int| 0 <= j < self@.headers.len() implies !names_match(
            #[trigger] self@.headers[j].0,
            name@,
        ) by {
            assert(self@.headers[j].0 == self.headers@[j].name@);
        }
        false
    }

    /// Removes every header of the given name, ignoring ASCII case, and keeps
    /// the others in order.
    pub fn remove_header(&mut self, name: &str)
        ensures
            final(self)@ == (RequestView {
                headers: without_header(old(self)@.headers, name@),
                ..old(self)@
            }),
    {
        let ghost old_hs = self@.headers;
        let mut kept: Vec<Header> = Vec::new();
        let mut i: usize = 0;
        while i < self.headers.len()
            invariant
                i <= self.headers@.len(),
                old_hs == self@.headers,
                headers_view(kept@) == without_header(old_hs.take(i as int), name@),
            decreases self.headers@.len() - i,
        {
            let ghost prefix = old_hs.take(i as int);
            assert(old_hs.take(i + 1).drop_last() =~= prefix);
            assert(old_hs.take(i + 1).last() == old_hs[i as int]);
            if !names_eq(self.headers[i].name.as_str(), name) {
                let h = Header { name: self.headers[i].name.clone(), value: self.headers[i].value.clone() };
                let ghost k0 = kept@;
                kept.push(h);
                assert(headers_view(kept@) =~= headers_view(k0).push(old_hs[i as int]));
            }
            i = i + 1;
        }
        assert(old_hs.take(i as int) =~= old_hs);
        self.headers = kept;
    }
}


/// The method that `send` accepts for a method name: `POST` or `PUT` only.
pub open spec fn send_method(name: Seq<char>) -> Option<Method> {
    if name == "POST"@ {
        Some(Method::Post)
    } else if name == "PUT"@ {
        Some(Method::Put)
    } else {
        None
    }
}

impl Method {
    /// Reads the method name given to `send`; any name but `POST` and `PUT`
    /// is refused.
    pub fn for_send(name: &str) -> (r: Option<Method>)
        ensures
            r == send_method(name@),
    {
        if crate::text::text_eq(name, "POST") {
            Some(Method::Post)
        } else if crate::text::text_eq(name, "PUT") {
            Some(Method::Put)
        } else {
            None
        }
    }
}

} // verus!
