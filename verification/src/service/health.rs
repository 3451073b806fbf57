use vstd::prelude::*;

use crate::response::{Response, ResponseSpec};
use crate::router::{Handler, Router, RouteSpec, Segment, SegmentSpec};

verus! {

/// The readiness route: GET /health/readiness.
pub open spec fn readiness_route() -> RouteSpec {
    RouteSpec {
        method: "GET"@,
        pattern: seq![
            SegmentSpec::Literal("health"@),
            SegmentSpec::Literal("readiness"@),
        ],
        handler: Handler::Readiness,
    }
}

/// The liveness route: GET /health/liveness.
pub open spec fn liveness_route() -> RouteSpec {
    RouteSpec {
        method: "GET"@,
        pattern: seq![
            SegmentSpec::Literal("health"@),
            SegmentSpec::Literal("liveness"@),
        ],
        handler: Handler::Liveness,
    }
}

/// Registers the two health-check routes: the table grows by the readiness
/// route, then the liveness route.
pub fn build_health_route(router: Router) -> (r: Router)
    ensures
        r@ == router@.push(readiness_route()).push(liveness_route()),
{
    let mut pat_ready: Vec<Segment> = Vec::new();
    pat_ready.push(Segment::Literal(String::from_str("health")));
    pat_ready.push(Segment::Literal(String::from_str("readiness")));
    let mut pat_live: Vec<Segment> = Vec::new();
    pat_live.push(Segment::Literal(String::from_str("health")));
    pat_live.push(Segment::Literal(String::from_str("liveness")));
    proof {
        assert(pat_ready@.map_values(|s: Segment| s@) =~= readiness_route().pattern);
        assert(pat_live@.map_values(|s: Segment| s@) =~= liveness_route().pattern);
    }
    let r = router.route("GET", pat_ready, Handler::Readiness);
    let r = r.route("GET", pat_live, Handler::Liveness);
    r
}

/// The body of every readiness response.
pub open spec fn readiness_body() -> Seq<char> {
    "{\"ready\":true}"@
}

/// The body of every liveness response.
pub open spec fn liveness_body() -> Seq<char> {
    "{\"live\":true}"@
}

/// Readiness health check: every call succeeds with status 200 and the body
/// `{"ready":true}`.
pub fn readiness() -> (r: Response)
    ensures
        r@ == (ResponseSpec { status: 200, body: readiness_body() }),
{
    Response { status: 200, body: String::from_str("{\"ready\":true}") }
}

/// Liveness health check: every call succeeds with status 200 and the body
/// `{"live":true}`.
pub fn liveness() -> (r: Response)
    ensures
        r@ == (ResponseSpec { status: 200, body: liveness_body() }),
{
    Response { status: 200, body: String::from_str("{\"live\":true}") }
}

} // verus!
