//! The routing decision and its surrounding dispatch.
//!
//! Routing is stateless: one decision per request, nothing kept across
//! requests. A non-GET request goes to the not-found handler. A GET request
//! is routed on the first path segment (the text between the leading `/` and
//! the next `/` or the end): the segment `api` selects the web-service
//! handler, anything else — including the empty segment of a bare `/` —
//! selects the static-page handler.

use crate::httprequest::{HttpRequest, Method, Resource};
use crate::httpresponse::{HttpResonse, RouteError};
use crate::sink::ResponseSink;
use vstd::prelude::*;
use vstd::string::*;

verus! {

/// The capability every handler variant offers: given a request, produce a
/// response. Handler variants are collaborators (the static-page handler
/// reads the filesystem, the web-service handler runs business logic), so
/// they implement this trait outside the core; each must populate a body, so
/// that serializing its response can never fail with `MissingBody`.
pub trait Handler {
    /// Produces the response for one request.
    fn handle(req: &HttpRequest) -> (resp: HttpResonse)
        ensures
            resp.body is Some,
    ;
}

/// Which handler variant the router selects for a request.
#[derive(Debug, Clone, Copy, PartialEq, Eq, Structural)]
pub enum HandlerKind {
    StaticPage,
    WebService,
    PageNotFound,
}

/// The index right after the path segment that starts at `i`: the first
/// position at or after `i` holding `/`, or the end of the path.
pub open spec fn spec_segment_end(path: Seq<char>, i: int) -> int
    recommends
        0 <= i <= path.len(),
    decreases path.len() - i,
{
    if i >= path.len() {
        path.len() as int
    } else if path[i] == '/' {
        i
    } else {
        spec_segment_end(path, i + 1)
    }
}

/// The first path segment: the text between the leading `/` and the next
/// `/` or the end. For the bare path `/` it is the empty segment.
pub open spec fn spec_first_segment(path: Seq<char>) -> Seq<char>
    recommends
        path.len() >= 1,
{
    path.subrange(1, spec_segment_end(path, 1))
}

/// The routing decision as a function of method and path alone.
pub open spec fn spec_selected_handler(req: HttpRequest) -> HandlerKind {
    if !(req.method is Get) {
        HandlerKind::PageNotFound
    } else if spec_first_segment(req.spec_path()) == "api"@ {
        HandlerKind::WebService
    } else {
        HandlerKind::StaticPage
    }
}

/// A non-GET request, whatever its path, is routed to the not-found
/// handler; together with [`PageNotFoundHandler`]'s contract that makes its
/// status `"404"`.
pub proof fn lemma_non_get_routes_to_not_found(req: HttpRequest)
    requires
        !(req.method is Get),
    ensures
        spec_selected_handler(req) == HandlerKind::PageNotFound,
{
}

/// A GET request whose first path segment is `api` — any `/api/...` target —
/// is routed to the web-service handler.
pub proof fn lemma_get_api_routes_to_web_service(req: HttpRequest)
    requires
        req.method is Get,
        spec_first_segment(req.spec_path()) == "api"@,
    ensures
        spec_selected_handler(req) == HandlerKind::WebService,
{
}

/// A GET request for the bare root `/` is routed to the static-page
/// handler: the single-segment path yields the empty first segment, never an
/// out-of-bounds index.
pub proof fn lemma_get_root_routes_to_static(req: HttpRequest)
    requires
        req.method is Get,
        req.spec_path() == "/"@,
    ensures
        spec_selected_handler(req) == HandlerKind::StaticPage,
{
    reveal_strlit("/");
    reveal_strlit("api");
    assert(spec_first_segment(req.spec_path()) =~= Seq::<char>::empty());
    assert("api"@.len() == 3);
}

proof fn lemma_segment_end(path: Seq<char>, i: int, end: int)
    requires
        0 <= i <= end <= path.len(),
        forall|j: int| i <= j < end ==> path[j] != '/',
        end == path.len() || path[end] == '/',
    ensures
        spec_segment_end(path, i) == end,
    decreases end - i,
{
    if i < end {
        lemma_segment_end(path, i + 1, end);
    }
}

/// Selects the handler variant for a request: exactly
/// [`spec_selected_handler`], with no index ever out of bounds — a bare `/`
/// yields the empty first segment and the static-page handler.
pub fn select_handler(req: &HttpRequest) -> (h: HandlerKind)
    requires
        req.spec_valid_resource(),
    ensures
        h == spec_selected_handler(*req),
{
    match &req.method {
        Method::Get => {
            match &req.resource {
                Resource::Path(path) => {
                    let s = path.as_str();
                    let n = s.unicode_len();
                    let mut i: usize = 1;
                    while i < n && s.get_char(i) != '/'
                        invariant
                            1 <= i <= n,
                            n == path@.len(),
                            s@ == path@,
                            forall|j: int| 1 <= j < i ==> path@[j] != '/',
                        decreases n - i,
                    {
                        i = i + 1;
                    }
                    proof {
                        lemma_segment_end(path@, 1, i as int);
                    }
                    let is_api = if i == 4 {
                        s.get_char(1) == 'a' && s.get_char(2) == 'p' && s.get_char(3) == 'i'
                    } else {
                        false
                    };
                    proof {
                        reveal_strlit("api");
                        let seg = spec_first_segment(path@);
                        if i == 4 {
                            assert(seg.len() == 3);
                            assert(seg[0] == path@[1] && seg[1] == path@[2] && seg[2] == path@[3]);
                            if path@[1] == 'a' && path@[2] == 'p' && path@[3] == 'i' {
                                assert(seg =~= "api"@);
                            }
                        } else {
                            assert(seg.len() != 3);
                        }
                        assert(is_api == (seg == "api"@));
                    }
                    if is_api {
                        HandlerKind::WebService
                    } else {
                        HandlerKind::StaticPage
                    }
                },
            }
        },
        _ => HandlerKind::PageNotFound,
    }
}

/// The terminal handler variant: a fixed `404 Not Found` response with the
/// default headers and an empty body, independent of the request.
pub struct PageNotFoundHandler;

impl Handler for PageNotFoundHandler {
    fn handle(_req: &HttpRequest) -> (resp: HttpResonse)
        ensures
            resp.status_code@ == "404"@,
            resp.status_text@ == "Not Found"@,
            resp.body matches Some(b) && b@ == Seq::<char>::empty(),
    {
        let resp = HttpResonse::new("404", None, Some(String::new()));
        proof {
            reveal_strlit("404");
            reveal_strlit("200");
            reveal_strlit("400");
            assert("404"@ != "200"@) by {
                reveal_strlit("404");
                reveal_strlit("200");
                assert("404"@[0] == '4' && "200"@[0] == '2');
            }
            assert("404"@ != "400"@) by {
                reveal_strlit("404");
                reveal_strlit("400");
                assert("404"@[2] == '4' && "400"@[2] == '0');
            }
        }
        resp
    }
}

/// The router: pure decision logic plus delegation. It holds no state.
pub struct Router;

impl Router {
    /// Handles one request end to end: selects the handler variant that
    /// [`spec_selected_handler`] names, obtains its response, serializes it
    /// and writes it to the sink in one operation. Because every handler
    /// populates a body, the only failure a caller can see is `IoError`,
    /// propagated from the sink rather than swallowed.
    pub fn route<S: Handler, W: Handler, N: Handler, T: ResponseSink>(
        req: HttpRequest,
        stream: &mut T,
    ) -> (r: Result<(), RouteError>)
        requires
            req.spec_valid_resource(),
        ensures
            r is Err ==> r == Err::<(), RouteError>(RouteError::IoError),
    {
        let resp = match select_handler(&req) {
            HandlerKind::StaticPage => S::handle(&req),
            HandlerKind::WebService => W::handle(&req),
            HandlerKind::PageNotFound => N::handle(&req),
        };
        resp.send_response(stream)
    }
}

} // verus!
