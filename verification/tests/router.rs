use httpserver::httprequest::{HttpRequest, Method, Resource};
use httpserver::httpresponse::{HttpResonse, RouteError};
use httpserver::router::{select_handler, Handler, HandlerKind, PageNotFoundHandler, Router};
use httpserver::sink::ResponseSink;

fn request(method: Method, path: &str) -> HttpRequest {
    HttpRequest {
        method,
        resource: Resource::Path(path.to_string()),
        headers: Vec::new(),
        body: None,
    }
}

struct StaticMarker;

impl Handler for StaticMarker {
    fn handle(_req: &HttpRequest) -> HttpResonse {
        HttpResonse::new("200", None, Some("static".to_string()))
    }
}

struct WebServiceMarker;

impl Handler for WebServiceMarker {
    fn handle(_req: &HttpRequest) -> HttpResonse {
        HttpResonse::new("200", None, Some("service".to_string()))
    }
}

struct RecordingSink {
    written: Vec<String>,
}

impl ResponseSink for RecordingSink {
    fn write_message(&mut self, message: &str) -> Result<(), ()> {
        self.written.push(message.to_string());
        Ok(())
    }
}

struct BrokenSink;

impl ResponseSink for BrokenSink {
    fn write_message(&mut self, _message: &str) -> Result<(), ()> {
        Err(())
    }
}

fn route_and_record(method: Method, path: &str) -> String {
    let mut sink = RecordingSink { written: Vec::new() };
    let outcome = Router::route::<StaticMarker, WebServiceMarker, PageNotFoundHandler, _>(
        request(method, path),
        &mut sink,
    );
    assert_eq!(outcome, Ok(()));
    assert_eq!(sink.written.len(), 1);
    sink.written.pop().unwrap()
}

#[test]
fn test_get_root_selects_static_page_handler() {
    // the single-segment path "/" must not panic and goes to the static handler
    assert_eq!(
        select_handler(&request(Method::Get, "/")),
        HandlerKind::StaticPage
    );
    let wire = route_and_record(Method::Get, "/");
    assert!(wire.ends_with("\r\n\r\nstatic"));
}

#[test]
fn test_get_plain_path_selects_static_page_handler() {
    assert_eq!(
        select_handler(&request(Method::Get, "/index.html")),
        HandlerKind::StaticPage
    );
    // a first segment that merely starts with "api" is not the api prefix
    assert_eq!(
        select_handler(&request(Method::Get, "/apiary/hives")),
        HandlerKind::StaticPage
    );
}

#[test]
fn test_get_api_path_selects_web_service_handler() {
    assert_eq!(
        select_handler(&request(Method::Get, "/api/anything")),
        HandlerKind::WebService
    );
    assert_eq!(
        select_handler(&request(Method::Get, "/api")),
        HandlerKind::WebService
    );
    let wire = route_and_record(Method::Get, "/api/anything");
    assert!(wire.ends_with("\r\n\r\nservice"));
}

#[test]
fn test_non_get_selects_page_not_found_handler() {
    for method in [
        Method::Post,
        Method::Put,
        Method::Delete,
        Method::Uninitialized,
    ] {
        assert_eq!(
            select_handler(&request(method, "/")),
            HandlerKind::PageNotFound
        );
        assert_eq!(
            select_handler(&request(method, "/api/anything")),
            HandlerKind::PageNotFound
        );
    }
    let wire = route_and_record(Method::Post, "/api/anything");
    assert_eq!(
        wire,
        "HTTP/1.1 404 Not Found\r\nContent-Type:text/html\r\nContent-Length: 0\r\n\r\n"
    );
}

#[test]
fn test_page_not_found_handler_yields_status_404() {
    let resp = PageNotFoundHandler::handle(&request(Method::Post, "/whatever"));
    assert_eq!(resp.status_code(), "404");
    assert_eq!(resp.status_text(), "Not Found");
    assert_eq!(resp.body(), "");
}

#[test]
fn test_route_surfaces_sink_failure_as_io_error() {
    let mut sink = BrokenSink;
    let outcome = Router::route::<StaticMarker, WebServiceMarker, PageNotFoundHandler, _>(
        request(Method::Get, "/"),
        &mut sink,
    );
    assert_eq!(outcome, Err(RouteError::IoError));
}
