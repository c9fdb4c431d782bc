//! The exposition endpoint: which request gets which response.
//!
//! The listener hands over the method and the path of each request. The
//! gauges are served from a registry that this module holds and encodes
//! but never looks into.

use prometheus_client::registry::Registry;
use vstd::prelude::*;

verus! {

/// The one path that is served.
pub const METRICS_PATH: &'static str = "/metrics";

/// The one method that is served.
pub const GET: &'static str = "GET";

/// The content type of an encoded registry.
pub const TEXT_FORMAT: &'static str = "application/openmetrics-text; version=1.0.0; charset=utf-8";

/// The registry of the metrics library, which holds the published gauges.
#[verifier::external_type_specification]
#[verifier::external_body]
pub struct ExRegistry(Registry);

/// What every request is served from.
pub struct RequestContext {
    registry: Registry,
}

impl RequestContext {
    /// The registry that requests are served from.
    pub closed spec fn registry(&self) -> Registry {
        self.registry
    }

    /// A context that serves the gauges registered in `registry`.
    pub fn new(registry: Registry) -> (context: Self)
        ensures
            context.registry() == registry,
    {
        RequestContext { registry }
    }
}

/// What a request asks for.
#[derive(Debug, Clone, Copy, PartialEq, Eq, Structural)]
pub enum Route {
    /// A `GET` of the metrics path: the gauges, encoded.
    Metrics,
    /// Another method on the metrics path.
    MethodNotAllowed,
    /// Another path.
    NotFound,
}

/// A response for the listener to send.
#[derive(Debug)]
pub struct Response {
    pub status: u16,
    pub content_type: Option<String>,
    pub body: String,
}

/// A `Response` with its texts as character sequences.
pub struct ResponseView {
    pub status: u16,
    pub content_type: Option<Seq<char>>,
    pub body: Seq<char>,
}

impl View for Response {
    type V = ResponseView;

    open spec fn view(&self) -> ResponseView {
        ResponseView {
            status: self.status,
            content_type: match self.content_type {
                Some(text) => Some(text@),
                None => None,
            },
            body: self.body@,
        }
    }
}

/// What a request with this method and this path asks for.
pub open spec fn route_of(method: Seq<char>, path: Seq<char>) -> Route {
    if path != METRICS_PATH@ {
        Route::NotFound
    } else if method != GET@ {
        Route::MethodNotAllowed
    } else {
        Route::Metrics
    }
}

/// The response that has this status and no body.
pub open spec fn status_only(status: u16) -> ResponseView {
    ResponseView { status, content_type: None, body: Seq::empty() }
}

/// The response to a request for `route`, where `encoded` is the encoded
/// registry, or `None` where encoding it failed.
pub open spec fn response_to(route: Route, encoded: Option<Seq<char>>) -> ResponseView {
    match route {
        Route::NotFound => status_only(404),
        Route::MethodNotAllowed => status_only(405),
        Route::Metrics => match encoded {
            Some(text) => ResponseView {
                status: 200,
                content_type: Some(TEXT_FORMAT@),
                body: text,
            },
            None => status_only(503),
        },
    }
}

/// Whether two texts are the same.
fn same_text(left: &str, right: &str) -> (same: bool)
    ensures
        same == (left@ == right@),
{
    String::from_str(left) == String::from_str(right)
}

/// The response of this status without a body.
fn http_status_no_body(status: u16) -> (response: Response)
    ensures
        response@ == status_only(status),
{
    Response { status, content_type: None, body: String::new() }
}

/// Says what a request with this method and this path asks for.
pub fn route(method: &str, path: &str) -> (route: Route)
    ensures
        route == route_of(method@, path@),
{
    if !same_text(path, METRICS_PATH) {
        Route::NotFound
    } else if !same_text(method, GET) {
        Route::MethodNotAllowed
    } else {
        Route::Metrics
    }
}

/// Builds the response to a request for `route`, given the encoded
/// registry, or `None` where encoding it failed.
pub fn respond(route: Route, encoded: Option<String>) -> (response: Response)
    ensures
        response@ == response_to(
            route,
            match encoded {
                Some(text) => Some(text@),
                None => None,
            },
        ),
{
    match route {
        Route::NotFound => http_status_no_body(404),
        Route::MethodNotAllowed => http_status_no_body(405),
        Route::Metrics => match encoded {
            Some(body) => Response {
                status: 200,
                content_type: Some(String::from_str(TEXT_FORMAT)),
                body,
            },
            None => http_status_no_body(503),
        },
    }
}

/// Encodes every gauge of the registry in the text exposition format.
///
/// Calls `prometheus_client::encoding::text::encode` on an empty string.
/// The text depends on what the gauges hold at the moment of the call, so
/// the contract claims nothing of it; `None` stands for a failure to encode.
#[verifier::external_body]
fn encode(registry: &Registry) -> (encoded: Option<String>) {
    let mut text = String::new();
    match prometheus_client::encoding::text::encode(&mut text, registry) {
        Ok(()) => Some(text),
        Err(_) => None,
    }
}

/// Serves one request: the encoded gauges for a `GET` of the metrics path,
/// or a failure status where they cannot be encoded; a status without a
/// body for everything else. The registry is encoded only where the
/// request asks for it.
pub fn http_route(method: &str, path: &str, context: &RequestContext) -> (response: Response)
    ensures
        route_of(method@, path@) != Route::Metrics ==> response@ == response_to(
            route_of(method@, path@),
            None,
        ),
        route_of(method@, path@) == Route::Metrics ==> response@ == response_to(
            Route::Metrics,
            None,
        ) || response@ == response_to(Route::Metrics, Some(response@.body)),
{
    let route = route(method, path);
    match route {
        Route::Metrics => respond(route, encode(&context.registry)),
        _ => respond(route, None),
    }
}

} // verus!
