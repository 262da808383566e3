//! The middleware chain: context propagation, permissive identity, and
//! the cross-origin header on every status code.

use petstore_api::http::{
    AddAccessControlOrigin, AddContext, AllowAllIdentity, Body, HttpRequest, HttpResponse,
    HttpService, MakeAddAccessControlOrigin, RequestContext,
};

fn header<'a>(resp: &'a HttpResponse, name: &str) -> Option<&'a str> {
    resp.headers
        .iter()
        .find(|(n, _)| n == name)
        .map(|(_, v)| v.as_str())
}

/// A service that records the context it was handed and answers with a
/// fixed response.
struct Probe {
    status: u16,
    headers: Vec<(String, String)>,
    seen: Option<RequestContext>,
    calls: u32,
}

impl HttpService for Probe {
    fn handle(&mut self, _req: &HttpRequest, ctx: &RequestContext) -> HttpResponse {
        self.seen = Some(ctx.clone());
        self.calls += 1;
        HttpResponse { status: self.status, headers: self.headers.clone(), body: Body::Empty }
    }
}

fn request() -> HttpRequest {
    HttpRequest { path: "/api/v3/pet".to_string(), body: None, accept_alternate: false }
}

#[test]
fn cors_adds_wildcard_header_on_success() {
    let probe = Probe { status: 200, headers: vec![], seen: None, calls: 0 };
    let mut layer = AddAccessControlOrigin { inner: probe };
    let resp = layer.handle(&request(), &RequestContext::empty());
    assert_eq!(resp.status, 200);
    assert_eq!(header(&resp, "access-control-allow-origin"), Some("*"));
}

#[test]
fn cors_adds_wildcard_header_on_client_and_server_errors() {
    for status in [400u16, 404, 405, 500] {
        let probe = Probe { status, headers: vec![], seen: None, calls: 0 };
        let mut layer = AddAccessControlOrigin { inner: probe };
        let resp = layer.handle(&request(), &RequestContext::empty());
        assert_eq!(resp.status, status);
        assert_eq!(header(&resp, "access-control-allow-origin"), Some("*"));
    }
}

#[test]
fn cors_overwrites_an_existing_origin_header() {
    let probe = Probe {
        status: 200,
        headers: vec![
            ("access-control-allow-origin".to_string(), "https://narrow".to_string()),
            ("content-type".to_string(), "application/json".to_string()),
        ],
        seen: None,
        calls: 0,
    };
    let mut layer = AddAccessControlOrigin { inner: probe };
    let resp = layer.handle(&request(), &RequestContext::empty());
    assert_eq!(header(&resp, "access-control-allow-origin"), Some("*"));
    assert_eq!(header(&resp, "content-type"), Some("application/json"));
    let origins = resp
        .headers
        .iter()
        .filter(|(n, _)| n == "access-control-allow-origin")
        .count();
    assert_eq!(origins, 1);
}

#[test]
fn identity_layer_attaches_the_configured_subject() {
    let probe = Probe { status: 200, headers: vec![], seen: None, calls: 0 };
    let mut layer = AllowAllIdentity::new(probe, "cosmo".to_string());
    layer.handle(&request(), &RequestContext::empty());
    let seen = layer.inner.seen.unwrap();
    assert_eq!(seen.identity.as_deref(), Some("cosmo"));
}

#[test]
fn context_layer_gives_each_request_a_fresh_correlation_id() {
    let probe = Probe { status: 200, headers: vec![], seen: None, calls: 0 };
    let mut layer = AddContext::new(probe);
    layer.handle(&request(), &RequestContext::empty());
    let first = layer.inner.seen.clone().unwrap().correlation_id.unwrap();
    layer.handle(&request(), &RequestContext::empty());
    let second = layer.inner.seen.clone().unwrap().correlation_id.unwrap();
    assert_eq!(first, "req-0");
    assert_eq!(second, "req-1");
    assert_ne!(first, second);
}

#[test]
fn full_chain_threads_identity_and_correlation_and_stamps_origin() {
    let probe = Probe { status: 404, headers: vec![], seen: None, calls: 0 };
    let make = MakeAddAccessControlOrigin::new(AllowAllIdentity::new(
        AddContext::new(probe),
        "cosmo".to_string(),
    ));
    let mut service = make.make();
    let resp = service.handle(&request(), &RequestContext::empty());
    assert_eq!(resp.status, 404);
    assert_eq!(header(&resp, "access-control-allow-origin"), Some("*"));
    let seen = service.inner.inner.inner.seen.clone().unwrap();
    assert_eq!(seen.identity.as_deref(), Some("cosmo"));
    assert_eq!(seen.correlation_id.as_deref(), Some("req-0"));
    assert_eq!(service.inner.inner.inner.calls, 1);
}

#[test]
fn contexts_are_fresh_not_mutated() {
    let base = RequestContext::empty();
    let with_id = base.with_identity("cosmo");
    let with_corr = with_id.with_correlation("req-9".to_string());
    assert_eq!(base.identity, None);
    assert_eq!(base.correlation_id, None);
    assert_eq!(with_id.identity.as_deref(), Some("cosmo"));
    assert_eq!(with_id.correlation_id, None);
    assert_eq!(with_corr.identity.as_deref(), Some("cosmo"));
    assert_eq!(with_corr.correlation_id.as_deref(), Some("req-9"));
}

#[test]
fn base_path_and_version() {
    assert_eq!(petstore_api::base_path(), "/api/v3");
    assert_eq!(petstore_api::api_version(), "1.0.11");
}
