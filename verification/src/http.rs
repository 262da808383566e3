//! The request-processing pipeline: the transport-facing request and
//! response shapes, the request-scoped context, and the layered middleware
//! chain (context propagation, permissive identity, cross-origin headers).
//!
//! Each layer owns its inner service and adds exactly one capability. The
//! transport front-end drives one exchange at a time through the outermost
//! layer.

use vstd::prelude::*;

use crate::document::{DocView, Document};
use crate::strutil::{is_kw, push_char, str_eq};

verus! {

/// A parsed request as the transport hands it to the pipeline: the routed
/// path, the structured body if one was sent, and whether content
/// negotiation chose the alternate document form for the answer.
pub struct HttpRequest {
    pub path: String,
    pub body: Option<Document>,
    pub accept_alternate: bool,
}

/// A response body: empty, a structured document, or already-rendered
/// text (the alternate form).
#[derive(Debug)]
pub enum Body {
    Empty,
    Doc(Document),
    Text(String),
}

pub enum BodyView {
    Empty,
    Doc(DocView),
    Text(Seq<char>),
}

impl View for Body {
    type V = BodyView;

    open spec fn view(&self) -> BodyView {
        match self {
            Body::Empty => BodyView::Empty,
            Body::Doc(d) => BodyView::Doc(d.dview()),
            Body::Text(t) => BodyView::Text(t@),
        }
    }
}

/// A transport response: a status code, named headers in order, a body.
#[derive(Debug)]
pub struct HttpResponse {
    pub status: u16,
    pub headers: Vec<(String, String)>,
    pub body: Body,
}

pub struct HttpResponseView {
    pub status: u16,
    pub headers: Seq<(Seq<char>, Seq<char>)>,
    pub body: BodyView,
}

pub open spec fn headers_view(hs: Seq<(String, String)>) -> Seq<(Seq<char>, Seq<char>)> {
    hs.map_values(|p: (String, String)| (p.0@, p.1@))
}

impl View for HttpResponse {
    type V = HttpResponseView;

    open spec fn view(&self) -> HttpResponseView {
        HttpResponseView {
            status: self.status,
            headers: headers_view(self.headers@),
            body: self.body@,
        }
    }
}

/// The value of the first header with the given name, if any.
pub open spec fn header_value(hs: Seq<(Seq<char>, Seq<char>)>, name: Seq<char>) -> Option<
    Seq<char>,
>
    decreases hs.len(),
{
    if hs.len() == 0 {
        None
    } else if hs[0].0 == name {
        Some(hs[0].1)
    } else {
        header_value(hs.drop_first(), name)
    }
}

/// The headers with every entry of the given name removed.
pub open spec fn strip_header(hs: Seq<(Seq<char>, Seq<char>)>, name: Seq<char>) -> Seq<
    (Seq<char>, Seq<char>),
>
    decreases hs.len(),
{
    if hs.len() == 0 {
        Seq::empty()
    } else if hs[0].0 == name {
        strip_header(hs.drop_first(), name)
    } else {
        seq![hs[0]] + strip_header(hs.drop_first(), name)
    }
}

/// Stripping one name leaves every other name's value unchanged, and the
/// stripped name is gone.
pub proof fn lemma_strip_header(hs: Seq<(Seq<char>, Seq<char>)>, name: Seq<char>)
    ensures
        header_value(strip_header(hs, name), name) == None::<Seq<char>>,
        forall|n: Seq<char>|
            n != name ==> #[trigger] header_value(strip_header(hs, name), n) == header_value(
                hs,
                n,
            ),
    decreases hs.len(),
{
    if hs.len() > 0 {
        lemma_strip_header(hs.drop_first(), name);
        if hs[0].0 == name {
        } else {
            let s = seq![hs[0]] + strip_header(hs.drop_first(), name);
            assert(s[0] == hs[0]);
            assert(s.drop_first() =~= strip_header(hs.drop_first(), name));
        }
    }
}

/// Appending a header makes it the found value of its name where that name
/// was absent, and leaves every present name's value alone.
pub proof fn lemma_header_value_push(
    hs: Seq<(Seq<char>, Seq<char>)>,
    p: (Seq<char>, Seq<char>),
    n: Seq<char>,
)
    ensures
        header_value(hs, n) is Some ==> header_value(hs.push(p), n) == header_value(hs, n),
        header_value(hs, n) is None && p.0 == n ==> header_value(hs.push(p), n) == Some(p.1),
        header_value(hs, n) is None && p.0 != n ==> header_value(hs.push(p), n) == None::<
            Seq<char>,
        >,
    decreases hs.len(),
{
    if hs.len() == 0 {
        let s = hs.push(p);
        assert(s[0] == p);
        assert(s.drop_first() =~= Seq::<(Seq<char>, Seq<char>)>::empty());
        assert(header_value(Seq::<(Seq<char>, Seq<char>)>::empty(), n) == None::<Seq<char>>);
    } else {
        let s = hs.push(p);
        assert(s[0] == hs[0]);
        assert(s.drop_first() =~= hs.drop_first().push(p));
        lemma_header_value_push(hs.drop_first(), p, n);
    }
}

/// The wire name of the cross-origin allowance header.
pub open spec fn origin_header_name() -> Seq<char> {
    "access-control-allow-origin"@
}

/// A response after the cross-origin layer: the wildcard origin header
/// overwrites any previous value; status, body and other headers stay.
pub open spec fn with_wildcard_origin(r: HttpResponseView) -> HttpResponseView {
    HttpResponseView {
        status: r.status,
        headers: strip_header(r.headers, origin_header_name()).push((origin_header_name(), "*"@)),
        body: r.body,
    }
}

/// The cross-origin layer adds the wildcard header to responses of every
/// status code — error statuses included — and changes nothing else.
pub proof fn lemma_cors_every_status(r: HttpResponseView)
    ensures
        header_value(with_wildcard_origin(r).headers, origin_header_name()) == Some("*"@),
        with_wildcard_origin(r).status == r.status,
        with_wildcard_origin(r).body == r.body,
        forall|n: Seq<char>|
            n != origin_header_name() ==> #[trigger] header_value(
                with_wildcard_origin(r).headers,
                n,
            ) == header_value(r.headers, n),
{
    let name = origin_header_name();
    let stripped = strip_header(r.headers, name);
    lemma_strip_header(r.headers, name);
    lemma_header_value_push(stripped, (name, "*"@), name);
    assert forall|n: Seq<char>|
        n != name implies #[trigger] header_value(with_wildcard_origin(r).headers, n)
        == header_value(r.headers, n) by {
        lemma_header_value_push(stripped, (name, "*"@), n);
    }
}

/// Overwrites the wildcard origin header on a response.
pub fn add_wildcard_origin(resp: HttpResponse) -> (r: HttpResponse)
    ensures
        r@ == with_wildcard_origin(resp@),
{
    let ghost hv = headers_view(resp.headers@);
    let name = "access-control-allow-origin";
    proof {
        reveal_strlit("access-control-allow-origin");
    }
    let mut kept: Vec<(String, String)> = Vec::new();
    let mut i: usize = 0;
    proof {
        assert(hv.skip(0) =~= hv);
        assert(headers_view(kept@) + strip_header(hv, name@) =~= strip_header(hv, name@));
    }
    while i < resp.headers.len()
        invariant
            i <= resp.headers.len(),
            hv == headers_view(resp.headers@),
            name@ == origin_header_name(),
            headers_view(kept@) + strip_header(hv.skip(i as int), name@) == strip_header(
                hv,
                name@,
            ),
        decreases resp.headers.len() - i,
    {
        let ghost pre = headers_view(kept@);
        let ghost rest = hv.skip(i as int);
        proof {
            assert(rest[0] == hv[i as int]);
            assert(hv[i as int] == (resp.headers@[i as int].0@, resp.headers@[i as int].1@));
            assert(rest.drop_first() =~= hv.skip(i as int + 1));
        }
        if !is_kw(&resp.headers[i].0, name) {
            kept.push((resp.headers[i].0.clone(), resp.headers[i].1.clone()));
            proof {
                assert(headers_view(kept@) =~= pre.push(hv[i as int]));
                assert(pre.push(hv[i as int]) + strip_header(hv.skip(i as int + 1), name@) =~= pre
                    + (seq![hv[i as int]] + strip_header(hv.skip(i as int + 1), name@)));
            }
        }
        i += 1;
    }
    proof {
        assert(hv.skip(i as int) =~= Seq::<(Seq<char>, Seq<char>)>::empty());
        assert(headers_view(kept@) + Seq::<(Seq<char>, Seq<char>)>::empty() =~= headers_view(
            kept@,
        ));
    }
    let ghost pre = headers_view(kept@);
    kept.push((String::from_str(name), String::from_str("*")));
    proof {
        assert(headers_view(kept@) =~= pre.push((name@, "*"@)));
    }
    HttpResponse { status: resp.status, headers: kept, body: resp.body }
}

/// The request-scoped context: an append-only bag of values threaded by
/// reference through one request's pipeline, never shared across requests.
#[derive(Debug, Clone, PartialEq)]
pub struct RequestContext {
    pub correlation_id: Option<String>,
    pub identity: Option<String>,
}

pub struct RequestContextView {
    pub correlation_id: Option<Seq<char>>,
    pub identity: Option<Seq<char>>,
}

impl View for RequestContext {
    type V = RequestContextView;

    open spec fn view(&self) -> RequestContextView {
        RequestContextView {
            correlation_id: crate::models::opt_view(self.correlation_id),
            identity: crate::models::opt_view(self.identity),
        }
    }
}

impl RequestContext {
    /// The context a connection starts from: nothing resolved yet.
    pub fn empty() -> (r: RequestContext)
        ensures
            r@.correlation_id is None,
            r@.identity is None,
    {
        RequestContext { correlation_id: None, identity: None }
    }

    /// A new context like this one, carrying the given correlation
    /// identifier. The old context is untouched: each request gets a
    /// fresh value.
    pub fn with_correlation(&self, id: String) -> (r: RequestContext)
        ensures
            r@.correlation_id == Some(id@),
            r@.identity == self@.identity,
    {
        RequestContext {
            correlation_id: Some(id),
            identity: match &self.identity {
                Some(s) => Some(s.clone()),
                None => None,
            },
        }
    }

    /// A new context like this one, carrying the given caller identity.
    pub fn with_identity(&self, subject: &str) -> (r: RequestContext)
        ensures
            r@.identity == Some(subject@),
            r@.correlation_id == self@.correlation_id,
    {
        RequestContext {
            correlation_id: match &self.correlation_id {
                Some(s) => Some(s.clone()),
                None => None,
            },
            identity: Some(String::from_str(subject)),
        }
    }
}

/// One link of the middleware chain: it takes the exchange and the
/// context built so far, and produces the response.
pub trait HttpService {
    fn handle(&mut self, req: &HttpRequest, ctx: &RequestContext) -> HttpResponse;
}

/// Factory for the cross-origin layer: wraps a made service so that every
/// response leaving it carries the wildcard origin header.
#[derive(Debug, Clone)]
pub struct MakeAddAccessControlOrigin<T> {
    pub inner: T,
}

impl<T> MakeAddAccessControlOrigin<T> {
    /// Wraps a service factory in the cross-origin layer.
    pub fn new(inner: T) -> (r: Self)
        ensures
            r == (MakeAddAccessControlOrigin { inner }),
    {
        MakeAddAccessControlOrigin { inner }
    }

    /// Builds the per-connection service: the inner service wrapped by
    /// the header layer.
    pub fn make(self) -> (r: AddAccessControlOrigin<T>)
        ensures
            r == (AddAccessControlOrigin { inner: self.inner }),
    {
        AddAccessControlOrigin { inner: self.inner }
    }
}

/// The cross-origin layer: after the inner service answers, the wildcard
/// origin header is overwritten onto the response, whatever its status.
#[derive(Debug, Clone)]
pub struct AddAccessControlOrigin<T> {
    pub inner: T,
}

impl<T: HttpService> AddAccessControlOrigin<T> {
    /// Answers the exchange through the inner service and stamps the
    /// wildcard origin header on the result.
    pub fn handle_with_origin(&mut self, req: &HttpRequest, ctx: &RequestContext) -> (r:
        HttpResponse)
        ensures
            header_value(r@.headers, origin_header_name()) == Some("*"@),
    {
        let resp = self.inner.handle(req, ctx);
        let r = add_wildcard_origin(resp);
        proof {
            lemma_cors_every_status(resp@);
        }
        r
    }
}

impl<T: HttpService> HttpService for AddAccessControlOrigin<T> {
    fn handle(&mut self, req: &HttpRequest, ctx: &RequestContext) -> HttpResponse {
        self.handle_with_origin(req, ctx)
    }
}

/// The permissive identity layer: every caller is accepted and the
/// configured subject is attached as the request's identity. A stricter
/// policy would reject absent or invalid credentials instead; swapping it
/// in touches no other layer.
#[derive(Debug, Clone)]
pub struct AllowAllIdentity<T> {
    pub inner: T,
    pub subject: String,
}

impl<T> AllowAllIdentity<T> {
    /// Wraps a service in the permissive identity layer with the given
    /// subject.
    pub fn new(inner: T, subject: String) -> (r: Self)
        ensures
            r == (AllowAllIdentity { inner, subject }),
    {
        AllowAllIdentity { inner, subject }
    }
}

impl<T: HttpService> HttpService for AllowAllIdentity<T> {
    /// Hands the exchange down with the configured subject attached to
    /// the context; the response passes through unchanged.
    fn handle(&mut self, req: &HttpRequest, ctx: &RequestContext) -> HttpResponse {
        let augmented = ctx.with_identity(self.subject.as_str());
        self.inner.handle(req, &augmented)
    }
}

/// The context propagation layer: each request gets a fresh context
/// carrying a correlation identifier drawn from this layer's serial
/// counter.
#[derive(Debug, Clone)]
pub struct AddContext<T> {
    pub inner: T,
    pub next_serial: u64,
}

impl<T> AddContext<T> {
    /// Wraps a service in the context layer, serials starting at zero.
    pub fn new(inner: T) -> (r: Self)
        ensures
            r == (AddContext { inner, next_serial: 0u64 }),
    {
        AddContext { inner, next_serial: 0 }
    }
}

impl<T: HttpService> HttpService for AddContext<T> {
    /// Hands the exchange down with a fresh context embedding the next
    /// correlation identifier and the identity resolved so far. No
    /// existing context is changed in place.
    fn handle(&mut self, req: &HttpRequest, ctx: &RequestContext) -> HttpResponse {
        let serial = self.next_serial;
        self.next_serial = if serial == u64::MAX {
            0
        } else {
            serial + 1
        };
        let id = crate::nums::u64_corr_text(serial);
        let fresh = ctx.with_correlation(id);
        self.inner.handle(req, &fresh)
    }
}

} // verus!
