use vstd::prelude::*;

use crate::response::{Response, ResponseSpec};
use crate::router::{Handler, Router, RouteSpec, Segment, SegmentSpec};

verus! {

/// The root welcome route: GET /. The root path's single segment is the
/// empty one, so its pattern is one empty literal.
pub open spec fn welcome_route() -> RouteSpec {
    RouteSpec {
        method: "GET"@,
        pattern: seq![SegmentSpec::Literal(""@)],
        handler: Handler::Welcome,
    }
}

/// The personalized welcome route: GET over one nonempty path segment, bound
/// as the name.
pub open spec fn welcome_name_route() -> RouteSpec {
    RouteSpec { method: "GET"@, pattern: seq![SegmentSpec::Param], handler: Handler::WelcomeWithName }
}

/// Registers the two welcome routes: the table grows by the root route, then
/// the personalized route.
pub fn build_welcome_route(route: Router) -> (r: Router)
    ensures
        r@ == route@.push(welcome_route()).push(welcome_name_route()),
{
    let mut pat_root: Vec<Segment> = Vec::new();
    pat_root.push(Segment::Literal(String::from_str("")));
    let mut pat_name: Vec<Segment> = Vec::new();
    pat_name.push(Segment::Param);
    proof {
        assert(pat_root@.map_values(|s: Segment| s@) =~= welcome_route().pattern);
        assert(pat_name@.map_values(|s: Segment| s@) =~= welcome_name_route().pattern);
    }
    let r = route.route("GET", pat_root, Handler::Welcome);
    let r = r.route("GET", pat_name, Handler::WelcomeWithName);
    r
}

/// The body of the welcome response for the root path.
pub open spec fn welcome_body() -> Seq<char> {
    "{\"message\":\"Hello, welcome to recipe-recommender-service\"}"@
}

/// The body of the personalized welcome response: the caller-supplied name is
/// spliced into the message as it is, without escaping or validation.
pub open spec fn welcome_name_body(name: Seq<char>) -> Seq<char> {
    "{\"message\":\"Hello, "@ + name + "! Welcome to recipe-recommender-service\"}"@
}

/// Welcome message for the root path: every call succeeds with status 200 and
/// the body `{"message":"Hello, welcome to recipe-recommender-service"}`.
pub fn welcome_msg() -> (r: Response)
    ensures
        r@ == (ResponseSpec { status: 200, body: welcome_body() }),
{
    Response {
        status: 200,
        body: String::from_str("{\"message\":\"Hello, welcome to recipe-recommender-service\"}"),
    }
}

/// Personalized welcome message: every call succeeds with status 200 and the
/// body `{"message":"Hello, <name>! Welcome to recipe-recommender-service"}`.
/// The name may be empty and may contain arbitrary characters; it is not
/// escaped.
pub fn welcome_msg_with_username(name: &str) -> (r: Response)
    ensures
        r@ == (ResponseSpec { status: 200, body: welcome_name_body(name@) }),
{
    let body = String::from_str("{\"message\":\"Hello, ").concat(name).concat(
        "! Welcome to recipe-recommender-service\"}",
    );
    Response { status: 200, body }
}

} // verus!
