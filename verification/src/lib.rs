//! A small HTTP routing library: a router maps a method and a path to a
//! handler, and each handler builds a fixed JSON response. The server loop
//! that reads requests and writes responses lives outside this crate.

use vstd::prelude::*;

pub mod response;
pub mod router;
pub mod service;

use crate::response::ResponseSpec;
use crate::router::{
    lemma_split_append, lemma_split_no_slash, not_found_response, spec_find, spec_find_from,
    spec_is_exact, spec_params, spec_path_segments, spec_pattern_matches, spec_response,
    spec_seg_matches, spec_split, Router, RouteSpec,
};
use crate::service::health::{
    build_health_route, liveness_body, liveness_route, readiness_body, readiness_route,
};
use crate::service::home::{
    build_welcome_route, welcome_body, welcome_name_body, welcome_name_route, welcome_route,
};

verus! {

/// The service's route table: the two health checks, then the root welcome,
/// then the personalized welcome.
pub open spec fn app_routes() -> Seq<RouteSpec> {
    seq![readiness_route(), liveness_route(), welcome_route(), welcome_name_route()]
}

/// Builds the service's route table.
pub fn app_router() -> (r: Router)
    ensures
        r@ == app_routes(),
{
    let r = Router::new();
    let r = build_health_route(r);
    let r = build_welcome_route(r);
    proof {
        assert(r@ =~= app_routes());
    }
    r
}

/// A GET of /health/readiness is answered with status 200 and the body
/// `{"ready":true}`.
pub proof fn lemma_readiness_request()
    ensures
        spec_response(app_routes(), "GET"@, "/health/readiness"@) == (ResponseSpec {
            status: 200,
            body: readiness_body(),
        }),
{
    reveal_strlit("/health/readiness");
    reveal_strlit("health");
    reveal_strlit("readiness");
    let path = "/health/readiness"@;
    assert(path.skip(1) =~= "health"@ + seq!['/'] + "readiness"@);
    lemma_split_no_slash("health"@);
    lemma_split_no_slash("readiness"@);
    lemma_split_append("health"@, "readiness"@);
    let segs = seq!["health"@, "readiness"@];
    assert(spec_split(path.skip(1)) =~~= segs);
    assert(spec_path_segments(path) == Some(segs));
    assert(spec_seg_matches(readiness_route().pattern[0], segs[0]));
    assert(spec_seg_matches(readiness_route().pattern[1], segs[1]));
    assert(spec_pattern_matches(readiness_route().pattern, segs));
    assert(spec_is_exact(readiness_route().pattern));
    assert(spec_find_from(app_routes(), "GET"@, segs, true, 0) == Some(readiness_route()));
    assert(spec_find(app_routes(), "GET"@, segs) == Some(readiness_route()));
}

/// A GET of /health/liveness is answered with status 200 and the body
/// `{"live":true}`.
pub proof fn lemma_liveness_request()
    ensures
        spec_response(app_routes(), "GET"@, "/health/liveness"@) == (ResponseSpec {
            status: 200,
            body: liveness_body(),
        }),
{
    reveal_strlit("/health/liveness");
    reveal_strlit("health");
    reveal_strlit("liveness");
    reveal_strlit("readiness");
    let path = "/health/liveness"@;
    assert(path.skip(1) =~= "health"@ + seq!['/'] + "liveness"@);
    lemma_split_no_slash("health"@);
    lemma_split_no_slash("liveness"@);
    lemma_split_append("health"@, "liveness"@);
    let segs = seq!["health"@, "liveness"@];
    assert(spec_split(path.skip(1)) =~~= segs);
    assert(spec_path_segments(path) == Some(segs));
    assert("readiness"@.len() != "liveness"@.len());
    assert(!spec_seg_matches(readiness_route().pattern[1], segs[1]));
    assert(!spec_pattern_matches(readiness_route().pattern, segs));
    assert(spec_seg_matches(liveness_route().pattern[0], segs[0]));
    assert(spec_seg_matches(liveness_route().pattern[1], segs[1]));
    assert(spec_pattern_matches(liveness_route().pattern, segs));
    assert(spec_is_exact(liveness_route().pattern));
    reveal_with_fuel(spec_find_from, 3);
    assert(spec_find_from(app_routes(), "GET"@, segs, true, 0) == Some(liveness_route()));
    assert(spec_find(app_routes(), "GET"@, segs) == Some(liveness_route()));
}

/// A GET of the root path is answered with status 200 and the fixed welcome
/// body: the root's exact route wins over the parameter route.
pub proof fn lemma_root_request()
    ensures
        spec_response(app_routes(), "GET"@, "/"@) == (ResponseSpec {
            status: 200,
            body: welcome_body(),
        }),
{
    reveal_strlit("/");
    reveal_strlit("");
    reveal_with_fuel(spec_split, 2);
    reveal_with_fuel(spec_find_from, 6);
    let path = "/"@;
    assert(path.skip(1) =~= Seq::<char>::empty());
    let segs = spec_split(path.skip(1));
    assert(segs =~~= seq![Seq::<char>::empty()]);
    assert(spec_path_segments(path) == Some(segs));
    assert(""@ =~= Seq::<char>::empty());
    assert(spec_seg_matches(welcome_route().pattern[0], segs[0]));
    assert(spec_pattern_matches(welcome_route().pattern, segs));
    assert(spec_is_exact(welcome_route().pattern));
    assert(!spec_pattern_matches(readiness_route().pattern, segs));
    assert(!spec_pattern_matches(liveness_route().pattern, segs));
    assert(spec_find_from(app_routes(), "GET"@, segs, true, 0) == Some(welcome_route()));
    assert(spec_find(app_routes(), "GET"@, segs) == Some(welcome_route()));
}

/// A GET of one nonempty segment that holds no separator is answered with
/// status 200 and the personalized welcome body, the name being the segment
/// itself.
pub proof fn lemma_named_request(path: Seq<char>, name: Seq<char>)
    requires
        name.len() > 0,
        forall|i: int| 0 <= i < name.len() ==> name[i] != '/',
        path == seq!['/'] + name,
    ensures
        spec_response(app_routes(), "GET"@, path) == (ResponseSpec {
            status: 200,
            body: welcome_name_body(name),
        }),
{
    reveal_strlit("");
    lemma_split_no_slash(name);
    assert(path.skip(1) =~= name);
    let segs = seq![name];
    assert(spec_path_segments(path) == Some(segs));
    assert(""@.len() == 0);
    assert(!spec_seg_matches(welcome_route().pattern[0], segs[0]));
    assert(!spec_pattern_matches(welcome_route().pattern, segs));
    assert(!spec_pattern_matches(readiness_route().pattern, segs));
    assert(!spec_pattern_matches(liveness_route().pattern, segs));
    assert(welcome_name_route().pattern[0] is Param);
    assert(!spec_is_exact(welcome_name_route().pattern));
    assert(spec_seg_matches(welcome_name_route().pattern[0], segs[0]));
    assert(spec_pattern_matches(welcome_name_route().pattern, segs));
    reveal_with_fuel(spec_find_from, 6);
    assert(spec_find_from(app_routes(), "GET"@, segs, true, 0) is None);
    assert(spec_find_from(app_routes(), "GET"@, segs, false, 0) == Some(welcome_name_route()));
    assert(spec_find(app_routes(), "GET"@, segs) == Some(welcome_name_route()));
    reveal_with_fuel(spec_params, 2);
    assert(spec_params(welcome_name_route().pattern, segs) =~~= seq![name]);
}

/// A request whose path has three or more segments is answered with status
/// 404 and an empty body, whatever its method: every pattern of this
/// service's table has at most two segments.
pub proof fn lemma_deep_path_not_found(method: Seq<char>, path: Seq<char>, segs: Seq<Seq<char>>)
    requires
        spec_path_segments(path) == Some(segs),
        segs.len() >= 3,
    ensures
        spec_response(app_routes(), method, path) == not_found_response(),
{
    assert(!spec_pattern_matches(readiness_route().pattern, segs));
    assert(!spec_pattern_matches(liveness_route().pattern, segs));
    assert(!spec_pattern_matches(welcome_route().pattern, segs));
    assert(!spec_pattern_matches(welcome_name_route().pattern, segs));
    reveal_with_fuel(spec_find_from, 6);
    assert(spec_find_from(app_routes(), method, segs, true, 0) is None);
    assert(spec_find_from(app_routes(), method, segs, false, 0) is None);
    assert(spec_find(app_routes(), method, segs) is None);
}

} // verus!
