//! The route table and its dispatch: a request's method and path select a
//! handler, an exact pattern winning over one that binds a parameter, and a
//! request that nothing accepts is answered with 404.

use vstd::prelude::*;

use crate::response::{Response, ResponseSpec};
use crate::service::health::{liveness, liveness_body, readiness, readiness_body};
use crate::service::home::{
    welcome_body, welcome_msg, welcome_msg_with_username, welcome_name_body,
};

verus! {

/// Which handler a route invokes.
#[derive(Clone, Copy, Debug)]
pub enum Handler {
    Readiness,
    Liveness,
    Welcome,
    WelcomeWithName,
}

/// One segment of a path pattern: a literal that the path segment must equal,
/// or a parameter that binds any single nonempty segment.
pub enum Segment {
    Literal(String),
    Param,
}

/// Model of a pattern segment.
pub enum SegmentSpec {
    Literal(Seq<char>),
    Param,
}

impl View for Segment {
    type V = SegmentSpec;

    open spec fn view(&self) -> SegmentSpec {
        match self {
            Segment::Literal(s) => SegmentSpec::Literal(s@),
            Segment::Param => SegmentSpec::Param,
        }
    }
}

/// One entry of the route table.
pub struct Route {
    pub method: String,
    pub pattern: Vec<Segment>,
    pub handler: Handler,
}

/// Model of a route: the method, the pattern and the handler.
pub struct RouteSpec {
    pub method: Seq<char>,
    pub pattern: Seq<SegmentSpec>,
    pub handler: Handler,
}

impl View for Route {
    type V = RouteSpec;

    open spec fn view(&self) -> RouteSpec {
        RouteSpec {
            method: self.method@,
            pattern: self.pattern@.map_values(|s: Segment| s@),
            handler: self.handler,
        }
    }
}

/// The route table. It is filled at startup and read-only afterwards.
pub struct Router {
    pub routes: Vec<Route>,
}

impl View for Router {
    type V = Seq<RouteSpec>;

    open spec fn view(&self) -> Seq<RouteSpec> {
        self.routes@.map_values(|r: Route| r@)
    }
}

/// The views of a sequence of strings.
pub open spec fn str_views(v: Seq<String>) -> Seq<Seq<char>> {
    v.map_values(|t: String| t@)
}

/// Splits a sequence of characters on '/': one segment between each pair of
/// separators, with an empty segment wherever a separator starts or ends the
/// sequence or follows another.
pub open spec fn spec_split(s: Seq<char>) -> Seq<Seq<char>>
    decreases s.len(),
{
    if s.len() == 0 {
        seq![Seq::<char>::empty()]
    } else if s.last() == '/' {
        spec_split(s.drop_last()).push(Seq::<char>::empty())
    } else {
        let prev = spec_split(s.drop_last());
        prev.update(prev.len() - 1, prev.last().push(s.last()))
    }
}

/// A split has at least one segment.
pub proof fn lemma_spec_split_len(s: Seq<char>)
    ensures
        spec_split(s).len() >= 1,
    decreases s.len(),
{
    if s.len() > 0 {
        lemma_spec_split_len(s.drop_last());
    }
}

/// A sequence without a separator splits into the single segment it is.
pub proof fn lemma_split_no_slash(s: Seq<char>)
    requires
        forall|i: int| 0 <= i < s.len() ==> s[i] != '/',
    ensures
        spec_split(s) == seq![s],
    decreases s.len(),
{
    if s.len() == 0 {
        assert(spec_split(s) =~~= seq![s]);
    } else {
        lemma_split_no_slash(s.drop_last());
        assert(s.drop_last().push(s.last()) =~= s);
        assert(spec_split(s) =~~= seq![s]);
    }
}

/// Splitting around a separator: the segments of `a + '/' + b` are the
/// segments of `a` followed by those of `b`.
pub proof fn lemma_split_append(a: Seq<char>, b: Seq<char>)
    ensures
        spec_split(a + seq!['/'] + b) == spec_split(a) + spec_split(b),
    decreases b.len(),
{
    lemma_spec_split_len(a);
    if b.len() == 0 {
        assert((a + seq!['/'] + b).drop_last() =~= a);
        assert((a + seq!['/'] + b).last() == '/');
        assert(spec_split(a + seq!['/'] + b) =~~= spec_split(a) + spec_split(b));
    } else {
        lemma_split_append(a, b.drop_last());
        lemma_spec_split_len(b.drop_last());
        let s = a + seq!['/'] + b;
        assert(s.drop_last() =~= a + seq!['/'] + b.drop_last());
        assert(s.last() == b.last());
        let pa = spec_split(a);
        let pb = spec_split(b.drop_last());
        if b.last() == '/' {
            assert((pa + pb).push(Seq::<char>::empty()) =~~= pa + pb.push(Seq::<char>::empty()));
        } else {
            let joined = pa + pb;
            assert(joined.last() == pb.last());
            assert(joined.update(
                joined.len() - 1,
                joined.last().push(b.last()),
            ) =~~= pa + pb.update(pb.len() - 1, pb.last().push(b.last())));
        }
        assert(spec_split(s) =~~= spec_split(a) + spec_split(b));
    }
}

/// The segments of a request path: what stands after the leading '/', split
/// on '/'. A path that does not start with '/' has no segments and matches no
/// route.
pub open spec fn spec_path_segments(path: Seq<char>) -> Option<Seq<Seq<char>>> {
    if path.len() >= 1 && path[0] == '/' {
        Some(spec_split(path.skip(1)))
    } else {
        None
    }
}

/// Splits the characters of `s` on '/'.
fn split_slash(s: &str) -> (segs: Vec<String>)
    ensures
        str_views(segs@) == spec_split(s@),
{
    let n = s.unicode_len();
    let mut segs: Vec<String> = Vec::new();
    let mut start: usize = 0;
    let mut i: usize = 0;
    proof {
        assert(str_views(segs@).push(s@.subrange(0, 0)) =~~= spec_split(s@.take(0)));
    }
    while i < n
        invariant
            start <= i <= n,
            n == s@.len(),
            str_views(segs@).push(s@.subrange(start as int, i as int)) == spec_split(
                s@.take(i as int),
            ),
        decreases n - i,
    {
        proof {
            assert(s@.take(i + 1).drop_last() =~= s@.take(i as int));
            assert(s@.take(i + 1).last() == s@[i as int]);
            lemma_spec_split_len(s@.take(i as int));
        }
        let c = s.get_char(i);
        if c == '/' {
            let seg = String::from_str(s.substring_char(start, i));
            segs.push(seg);
            start = i + 1;
            proof {
                assert(str_views(segs@).push(s@.subrange(start as int, i + 1)) =~~= spec_split(
                    s@.take(i + 1),
                ));
            }
        } else {
            proof {
                let prev = spec_split(s@.take(i as int));
                assert(spec_split(s@.take(i + 1)) == prev.update(
                    prev.len() - 1,
                    prev.last().push(s@[i as int]),
                ));
                assert(str_views(segs@).push(s@.subrange(start as int, i + 1)) =~~= prev.update(
                    prev.len() - 1,
                    prev.last().push(s@[i as int]),
                ));
            }
        }
        i = i + 1;
    }
    let last = String::from_str(s.substring_char(start, n));
    segs.push(last);
    proof {
        assert(s@.take(n as int) =~= s@);
        assert(str_views(segs@) =~~= str_views(segs@.drop_last()).push(
            s@.subrange(start as int, n as int),
        ));
    }
    segs
}

/// Whether a pattern segment accepts a path segment: a literal must equal it,
/// a parameter accepts any nonempty segment.
pub open spec fn spec_seg_matches(seg: SegmentSpec, s: Seq<char>) -> bool {
    match seg {
        SegmentSpec::Literal(l) => l == s,
        SegmentSpec::Param => s.len() > 0,
    }
}

/// Whether a pattern accepts a segment list: same length, each segment
/// accepted in place.
pub open spec fn spec_pattern_matches(pat: Seq<SegmentSpec>, segs: Seq<Seq<char>>) -> bool {
    &&& pat.len() == segs.len()
    &&& forall|i: int| 0 <= i < pat.len() ==> #[trigger] spec_seg_matches(pat[i], segs[i])
}

/// A pattern without a parameter segment: it accepts exactly one path.
pub open spec fn spec_is_exact(pat: Seq<SegmentSpec>) -> bool {
    forall|i: int| 0 <= i < pat.len() ==> !((#[trigger] pat[i]) is Param)
}

/// The first route, from position `i` on, that accepts the method and the
/// segments; under `exact_only`, only a route whose pattern has no parameter
/// counts.
pub open spec fn spec_find_from(
    routes: Seq<RouteSpec>,
    method: Seq<char>,
    segs: Seq<Seq<char>>,
    exact_only: bool,
    i: int,
) -> Option<RouteSpec>
    decreases routes.len() - i,
{
    if i < 0 || i >= routes.len() {
        None
    } else if routes[i].method == method && spec_pattern_matches(routes[i].pattern, segs) && (
    exact_only ==> spec_is_exact(routes[i].pattern)) {
        Some(routes[i])
    } else {
        spec_find_from(routes, method, segs, exact_only, i + 1)
    }
}

/// The route that serves a request: the first exactly matching route if one
/// exists, else the first route that matches through a parameter.
pub open spec fn spec_find(
    routes: Seq<RouteSpec>,
    method: Seq<char>,
    segs: Seq<Seq<char>>,
) -> Option<RouteSpec> {
    if spec_find_from(routes, method, segs, true, 0) is Some {
        spec_find_from(routes, method, segs, true, 0)
    } else {
        spec_find_from(routes, method, segs, false, 0)
    }
}

/// The parameter values a matched path binds: the segments at the pattern's
/// parameter positions, in order.
pub open spec fn spec_params(pat: Seq<SegmentSpec>, segs: Seq<Seq<char>>) -> Seq<Seq<char>>
    decreases pat.len(),
{
    if pat.len() == 0 || segs.len() == 0 {
        Seq::<Seq<char>>::empty()
    } else {
        let prev = spec_params(pat.drop_last(), segs.drop_last());
        if pat.last() is Param {
            prev.push(segs.last())
        } else {
            prev
        }
    }
}

/// What each handler returns, given the bound parameter values. Every handler
/// of this service succeeds with status 200; the personalized welcome reads
/// its name from the first parameter, an empty name standing in where none
/// was bound.
pub open spec fn spec_invoke(h: Handler, params: Seq<Seq<char>>) -> ResponseSpec {
    match h {
        Handler::Readiness => ResponseSpec { status: 200, body: readiness_body() },
        Handler::Liveness => ResponseSpec { status: 200, body: liveness_body() },
        Handler::Welcome => ResponseSpec { status: 200, body: welcome_body() },
        Handler::WelcomeWithName => ResponseSpec {
            status: 200,
            body: welcome_name_body(
                if params.len() > 0 {
                    params[0]
                } else {
                    Seq::<char>::empty()
                },
            ),
        },
    }
}

/// The response when no route accepts a request: status 404 and an empty
/// body.
pub open spec fn not_found_response() -> ResponseSpec {
    ResponseSpec { status: 404, body: Seq::<char>::empty() }
}

/// The response of the whole service to one request.
pub open spec fn spec_response(
    routes: Seq<RouteSpec>,
    method: Seq<char>,
    path: Seq<char>,
) -> ResponseSpec {
    match spec_path_segments(path) {
        Some(segs) => match spec_find(routes, method, segs) {
            Some(r) => spec_invoke(r.handler, spec_params(r.pattern, segs)),
            None => not_found_response(),
        },
        None => not_found_response(),
    }
}

/// Whether one pattern segment accepts one path segment.
fn seg_matches(seg: &Segment, s: &String) -> (b: bool)
    ensures
        b == spec_seg_matches(seg@, s@),
{
    match seg {
        Segment::Literal(l) => *l == *s,
        Segment::Param => !s.as_str().is_empty(),
    }
}

/// Whether a pattern accepts a segment list, decided segment by segment.
fn pattern_matches(pattern: &Vec<Segment>, segs: &Vec<String>) -> (b: bool)
    ensures
        b == spec_pattern_matches(pattern@.map_values(|s: Segment| s@), str_views(segs@)),
{
    if pattern.len() != segs.len() {
        return false;
    }
    let ghost pat_v = pattern@.map_values(|s: Segment| s@);
    let ghost segs_v = str_views(segs@);
    let mut i: usize = 0;
    while i < pattern.len()
        invariant
            i <= pattern.len(),
            pattern.len() == segs.len(),
            pat_v == pattern@.map_values(|s: Segment| s@),
            segs_v == str_views(segs@),
            forall|j: int| 0 <= j < i ==> #[trigger] spec_seg_matches(pat_v[j], segs_v[j]),
        decreases pattern.len() - i,
    {
        let ok = seg_matches(&pattern[i], &segs[i]);
        if !ok {
            proof {
                assert(pat_v[i as int] == pattern@[i as int]@);
                assert(segs_v[i as int] == segs@[i as int]@);
                assert(!spec_seg_matches(pat_v[i as int], segs_v[i as int]));
            }
            return false;
        }
        i = i + 1;
    }
    true
}

/// Whether a pattern has no parameter segment.
fn is_exact(pattern: &Vec<Segment>) -> (b: bool)
    ensures
        b == spec_is_exact(pattern@.map_values(|s: Segment| s@)),
{
    let ghost pat_v = pattern@.map_values(|s: Segment| s@);
    let mut i: usize = 0;
    while i < pattern.len()
        invariant
            i <= pattern.len(),
            pat_v == pattern@.map_values(|s: Segment| s@),
            forall|j: int| 0 <= j < i ==> !((#[trigger] pat_v[j]) is Param),
        decreases pattern.len() - i,
    {
        if let Segment::Param = &pattern[i] {
            proof {
                assert(pat_v[i as int] == pattern@[i as int]@);
                assert(pat_v[i as int] is Param);
            }
            return false;
        }
        i = i + 1;
    }
    true
}

/// The bound parameter values of a matched path.
fn extract_params(pattern: &Vec<Segment>, segs: &Vec<String>) -> (params: Vec<String>)
    requires
        pattern@.len() == segs@.len(),
    ensures
        str_views(params@) == spec_params(pattern@.map_values(|s: Segment| s@), str_views(segs@)),
{
    let ghost pat_v = pattern@.map_values(|s: Segment| s@);
    let ghost segs_v = str_views(segs@);
    let mut params: Vec<String> = Vec::new();
    let mut i: usize = 0;
    proof {
        assert(str_views(params@) =~~= spec_params(pat_v.take(0), segs_v.take(0)));
    }
    while i < pattern.len()
        invariant
            i <= pattern.len(),
            pattern.len() == segs.len(),
            pat_v == pattern@.map_values(|s: Segment| s@),
            segs_v == str_views(segs@),
            str_views(params@) == spec_params(pat_v.take(i as int), segs_v.take(i as int)),
        decreases pattern.len() - i,
    {
        proof {
            assert(pat_v.take(i + 1).drop_last() =~= pat_v.take(i as int));
            assert(segs_v.take(i + 1).drop_last() =~= segs_v.take(i as int));
            assert(pat_v.take(i + 1).last() == pat_v[i as int]);
            assert(segs_v.take(i + 1).last() == segs_v[i as int]);
        }
        if let Segment::Param = &pattern[i] {
            params.push(segs[i].clone());
            proof {
                assert(str_views(params@) =~~= str_views(params@.drop_last()).push(
                    segs_v[i as int],
                ));
            }
        }
        i = i + 1;
    }
    proof {
        assert(pat_v.take(pattern.len() as int) =~= pat_v);
        assert(segs_v.take(segs.len() as int) =~= segs_v);
    }
    params
}

/// Runs one handler on the bound parameter values.
fn invoke(h: Handler, params: &Vec<String>) -> (r: Response)
    ensures
        r@ == spec_invoke(h, str_views(params@)),
{
    match h {
        Handler::Readiness => readiness(),
        Handler::Liveness => liveness(),
        Handler::Welcome => welcome_msg(),
        Handler::WelcomeWithName => {
            if params.len() > 0 {
                welcome_msg_with_username(params[0].as_str())
            } else {
                proof {
                    reveal_strlit("");
                    assert(""@ =~= Seq::<char>::empty());
                }
                welcome_msg_with_username("")
            }
        },
    }
}

/// The response for a request that no route serves.
pub fn not_found() -> (r: Response)
    ensures
        r@ == not_found_response(),
{
    Response { status: 404, body: String::new() }
}

impl Router {
    /// An empty route table.
    pub fn new() -> (r: Router)
        ensures
            r@ == Seq::<RouteSpec>::empty(),
    {
        let r = Router { routes: Vec::new() };
        proof {
            assert(r@ =~= Seq::<RouteSpec>::empty());
        }
        r
    }

    /// Registers one route: the table grows by that entry at the end.
    pub fn route(self, method: &str, pattern: Vec<Segment>, handler: Handler) -> (r: Router)
        ensures
            r@ == self@.push(
                RouteSpec {
                    method: method@,
                    pattern: pattern@.map_values(|s: Segment| s@),
                    handler,
                },
            ),
    {
        let mut routes = self.routes;
        routes.push(Route { method: String::from_str(method), pattern, handler });
        let r = Router { routes };
        proof {
            assert(r@ =~= self@.push(
                RouteSpec {
                    method: method@,
                    pattern: pattern@.map_values(|s: Segment| s@),
                    handler,
                },
            ));
        }
        r
    }

    /// One pass over the table, in registration order: the index of the first
    /// route that accepts the request, counting only exactly matching routes
    /// under `exact_only`.
    fn find_pass(&self, method: &String, segs: &Vec<String>, exact_only: bool) -> (r: Option<
        usize,
    >)
        ensures
            match r {
                Some(j) => {
                    &&& j < self.routes@.len()
                    &&& spec_find_from(self@, method@, str_views(segs@), exact_only, 0) == Some(
                        self@[j as int],
                    )
                    &&& spec_pattern_matches(self@[j as int].pattern, str_views(segs@))
                },
                None => spec_find_from(self@, method@, str_views(segs@), exact_only, 0) is None,
            },
    {
        let ghost m = method@;
        let ghost segs_v = str_views(segs@);
        let mut i: usize = 0;
        while i < self.routes.len()
            invariant
                i <= self.routes@.len(),
                m == method@,
                segs_v == str_views(segs@),
                spec_find_from(self@, m, segs_v, exact_only, 0) == spec_find_from(
                    self@,
                    m,
                    segs_v,
                    exact_only,
                    i as int,
                ),
            decreases self.routes@.len() - i,
        {
            let route = &self.routes[i];
            let method_ok = *method == route.method;
            let matched = method_ok && pattern_matches(&route.pattern, segs);
            let accepted = matched && (!exact_only || is_exact(&route.pattern));
            if accepted {
                return Some(i);
            }
            i = i + 1;
        }
        None
    }

    /// The index of the route that serves the request: the first exact match
    /// if one exists, else the first match through a parameter.
    fn find(&self, method: &String, segs: &Vec<String>) -> (r: Option<usize>)
        ensures
            match r {
                Some(j) => {
                    &&& j < self.routes@.len()
                    &&& spec_find(self@, method@, str_views(segs@)) == Some(self@[j as int])
                    &&& spec_pattern_matches(self@[j as int].pattern, str_views(segs@))
                },
                None => spec_find(self@, method@, str_views(segs@)) is None,
            },
    {
        match self.find_pass(method, segs, true) {
            Some(j) => Some(j),
            None => self.find_pass(method, segs, false),
        }
    }

    /// Serves one request: the matched handler's response, or 404 with an
    /// empty body where the method and path stand in no route of the table.
    pub fn dispatch(&self, method: &str, path: &str) -> (r: Response)
        ensures
            r@ == spec_response(self@, method@, path@),
    {
        let n = path.unicode_len();
        if n == 0 || path.get_char(0) != '/' {
            return not_found();
        }
        let rest = path.substring_char(1, n);
        proof {
            assert(rest@ =~= path@.skip(1));
        }
        let segs = split_slash(rest);
        let m = String::from_str(method);
        match self.find(&m, &segs) {
            Some(j) => {
                let route = &self.routes[j];
                let params = extract_params(&route.pattern, &segs);
                invoke(route.handler, &params)
            },
            None => not_found(),
        }
    }
}

/// Handling a request is a function of the route table, the method and the
/// path alone: two responses to the same request are identical, so repeated
/// identical requests get byte-identical answers.
pub proof fn lemma_dispatch_idempotent(
    routes: Seq<RouteSpec>,
    method: Seq<char>,
    path: Seq<char>,
    r1: ResponseSpec,
    r2: ResponseSpec,
)
    requires
        r1 == spec_response(routes, method, path),
        r2 == spec_response(routes, method, path),
    ensures
        r1 == r2,
{
}

/// A request whose method and path no route of the table accepts, likewise
/// one whose path does not start with '/', is answered with status 404 and an
/// empty body.
pub proof fn lemma_unmatched_not_found(routes: Seq<RouteSpec>, method: Seq<char>, path: Seq<char>)
    requires
        match spec_path_segments(path) {
            Some(segs) => spec_find(routes, method, segs) is None,
            None => true,
        },
    ensures
        spec_response(routes, method, path) == not_found_response(),
{
}

/// Every request that some route of the table accepts is answered with
/// status 200: no handler of this service can fail.
pub proof fn lemma_matched_status_ok(
    routes: Seq<RouteSpec>,
    method: Seq<char>,
    path: Seq<char>,
    segs: Seq<Seq<char>>,
)
    requires
        spec_path_segments(path) == Some(segs),
        spec_find(routes, method, segs) is Some,
    ensures
        spec_response(routes, method, path).status == 200,
{
}

} // verus!
