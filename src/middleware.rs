use vstd::prelude::*;
use crate::request::{Request, RequestView, body_view, without_header};

verus! {

/// A request transform of the middleware chain.
#[derive(Debug)]
pub enum Middleware {
    /// Appends a header after all present ones.
    AddHeader(String, String),
    /// Replaces every header of that name by one with the given value.
    SetHeader(String, String),
    /// Removes every header of that name.
    RemoveHeader(String),
    /// Replaces the target URL.
    SetUrl(String),
    /// Replaces the body, or drops it with `None`.
    SetBody(Option<Vec<u8>>),
}

/// What one transform makes of a request.
pub open spec fn transform(m: Middleware, r: RequestView) -> RequestView {
    match m {
        Middleware::AddHeader(n, v) => RequestView { headers: r.headers.push((n@, v@)), ..r },
        Middleware::SetHeader(n, v) => RequestView {
            headers: without_header(r.headers, n@).push((n@, v@)),
            ..r
        },
        Middleware::RemoveHeader(n) => RequestView { headers: without_header(r.headers, n@), ..r },
        Middleware::SetUrl(u) => RequestView { url: u@, ..r },
        Middleware::SetBody(b) => RequestView { body: body_view(b), ..r },
    }
}

/// The chain applied left to right: each transform sees the output of the
/// ones registered before it.
pub open spec fn apply_chain(ms: Seq<Middleware>, r: RequestView) -> RequestView
    decreases ms.len(),
{
    if ms.len() == 0 {
        r
    } else {
        transform(ms.last(), apply_chain(ms.drop_last(), r))
    }
}

fn copy_bytes(v: &Vec<u8>) -> (r: Vec<u8>)
    ensures
        r@ == v@,
{
    let mut r: Vec<u8> = Vec::new();
    let mut i: usize = 0;
    while i < v.len()
        invariant
            i <= v@.len(),
            r@ == v@.take(i as int),
        decreases v@.len() - i,
    {
        r.push(v[i]);
        i = i + 1;
        assert(r@ =~= v@.take(i as int));
    }
    assert(v@.take(i as int) =~= v@);
    r
}

impl Middleware {
    /// Runs this transform on a request.
    pub fn apply(&self, req: &mut Request)
        ensures
            final(req)@ == transform(*self, old(req)@),
    {
        match self {
            Middleware::AddHeader(n, v) => {
                req.push_header(n.clone(), v.clone());
            },
            Middleware::SetHeader(n, v) => {
                req.remove_header(n.as_str());
                req.push_header(n.clone(), v.clone());
            },
            Middleware::RemoveHeader(n) => {
                req.remove_header(n.as_str());
            },
            Middleware::SetUrl(u) => {
                req.url = u.clone();
            },
            Middleware::SetBody(b) => {
                req.body = match b {
                    Some(v) => Some(copy_bytes(v)),
                    None => None,
                };
            },
        }
    }
}

/// Runs every transform of the chain on a request, in order.
pub fn apply_all(ms: &Vec<Middleware>, req: &mut Request)
    ensures
        final(req)@ == apply_chain(ms@, old(req)@),
{
    let ghost start = req@;
    let mut i: usize = 0;
    while i < ms.len()
        invariant
            i <= ms@.len(),
            req@ == apply_chain(ms@.take(i as int), start),
        decreases ms@.len() - i,
    {
        assert(ms@.take(i + 1).drop_last() =~= ms@.take(i as int));
        ms[i].apply(req);
        i = i + 1;
    }
    assert(ms@.take(i as int) =~= ms@);
}

/// Registering transforms one after another composes them: the chain
/// `first + second` does what `first` does, then what `second` does.
pub proof fn lemma_chain_composes(first: Seq<Middleware>, second: Seq<Middleware>, r: RequestView)
    ensures
        apply_chain(first + second, r) == apply_chain(second, apply_chain(first, r)),
    decreases second.len(),
{
    if second.len() == 0 {
        assert(first + second =~= first);
    } else {
        assert((first + second).drop_last() =~= first + second.drop_last());
        lemma_chain_composes(first, second.drop_last(), r);
    }
}

/// Two transforms that each append a header leave both headers in the
/// request, in registration order, after the headers it had.
pub proof fn lemma_appends_layer_in_order(
    a_name: String,
    a_value: String,
    b_name: String,
    b_value: String,
    r: RequestView,
)
    ensures
        apply_chain(
            seq![Middleware::AddHeader(a_name, a_value), Middleware::AddHeader(b_name, b_value)],
            r,
        ).headers == r.headers.push((a_name@, a_value@)).push((b_name@, b_value@)),
{
    let ms = seq![Middleware::AddHeader(a_name, a_value), Middleware::AddHeader(b_name, b_value)];
    assert(ms.drop_last().drop_last() =~= Seq::<Middleware>::empty());
    assert(ms.drop_last() =~= seq![Middleware::AddHeader(a_name, a_value)]);
    assert(apply_chain(ms.drop_last().drop_last(), r) == r);
    assert(apply_chain(ms.drop_last(), r).headers == r.headers.push((a_name@, a_value@)));
}

} // verus!
