use vstd::prelude::*;

use crate::config::ServiceConfig;
use crate::controller::{
    authority_of, is_dispatch_for, is_health_check, is_health_response, is_not_found_response,
    is_reply_for, is_unavailable_response, uri_of,
};
use crate::message::{Dispatch, Reply, Request};
use crate::routing::{has_no_match, is_first_match, lemma_route_index};

verus! {

/// No two routes share a path.
pub open spec fn paths_unique(routes: Seq<ServiceConfig>) -> bool {
    forall|j: int, k: int|
        0 <= j < routes.len() && 0 <= k < routes.len() && j != k ==> routes[j].path@ != routes[k].path@
}

/// Where no two routes share a path, a request (other than the health
/// check) for the path of route `i` goes to that route's backend: its
/// authority is the host, followed by `:` and the port unless the port is
/// 80 or 443.
pub proof fn lemma_route_forwards_to_its_backend<B>(
    routes: Seq<ServiceConfig>,
    i: int,
    req: Request<B>,
    r: Dispatch<B>,
)
    requires
        paths_unique(routes),
        0 <= i < routes.len(),
        req.path@ == routes[i].path@,
        !is_health_check(req),
        is_dispatch_for(routes, req, r),
    ensures
        r matches Dispatch::Forward(out) && out.uri@ == uri_of(routes[i], req.path@, req.query),
        authority_of(routes[i]) == routes[i].target_service@ + (if routes[i].target_port@ == "80"@
            || routes[i].target_port@ == "443"@ {
            Seq::<char>::empty()
        } else {
            ":"@ + routes[i].target_port@
        }),
{
    assert(is_first_match(routes, req.path@, i));
    lemma_route_index(routes, req.path@);
}

/// `GET /health-check` is answered `200` with body `OK`, whatever the
/// routing table holds, a route at that path included.
pub proof fn lemma_health_check_first<B>(routes: Seq<ServiceConfig>, req: Request<B>, r: Dispatch<B>)
    requires
        is_health_check(req),
        is_dispatch_for(routes, req, r),
    ensures
        r matches Dispatch::Respond(resp) && is_health_response(resp),
{
}

/// A request for a path that no route has (other than the health check) is
/// answered `404` with body `404 Not Found`.
pub proof fn lemma_unknown_path_not_found<B>(routes: Seq<ServiceConfig>, req: Request<B>, r: Dispatch<B>)
    requires
        has_no_match(routes, req.path@),
        !is_health_check(req),
        is_dispatch_for(routes, req, r),
    ensures
        r matches Dispatch::Respond(resp) && is_not_found_response(resp),
{
    lemma_route_index(routes, req.path@);
    if let Some(k) = crate::routing::route_index(routes, req.path@) {
        assert(routes[k].path@ != req.path@);
    }
}

/// A request that matches a route is forwarded, and when its backend cannot
/// be reached the caller receives `503`.
pub proof fn lemma_unreachable_backend_unavailable<B, R>(
    routes: Seq<ServiceConfig>,
    req: Request<B>,
    d: Dispatch<B>,
    reason: String,
    reply: Reply<R>,
)
    requires
        !has_no_match(routes, req.path@),
        !is_health_check(req),
        is_dispatch_for(routes, req, d),
        is_reply_for(Err::<R, String>(reason), reply),
    ensures
        d is Forward,
        reply matches Reply::Synthesized(resp) && resp.status == 503,
        reply matches Reply::Synthesized(resp) && is_unavailable_response(resp, reason@),
{
    lemma_route_index(routes, req.path@);
}

/// A forwarded request carries the inbound header entries, in order, and
/// nothing else.
pub proof fn lemma_headers_forwarded<B>(routes: Seq<ServiceConfig>, req: Request<B>, r: Dispatch<B>)
    requires
        is_dispatch_for(routes, req, r),
        r is Forward,
    ensures
        r matches Dispatch::Forward(out) && out.headers@ == req.headers@,
{
}

/// Two dispatches of the same request under the same routing table decide
/// the same way: both answer with the same status and body, or both forward
/// to the same URI.
pub proof fn lemma_dispatch_deterministic<B>(
    routes: Seq<ServiceConfig>,
    req: Request<B>,
    r1: Dispatch<B>,
    r2: Dispatch<B>,
)
    requires
        is_dispatch_for(routes, req, r1),
        is_dispatch_for(routes, req, r2),
    ensures
        r1 is Respond <==> r2 is Respond,
        r1 matches Dispatch::Respond(a) ==> (r2 matches Dispatch::Respond(b) && a.status == b.status
            && a.body@ == b.body@),
        r1 matches Dispatch::Forward(a) ==> (r2 matches Dispatch::Forward(b) && a.uri@ == b.uri@
            && a.method@ == b.method@ && a.headers@ == b.headers@),
{
}

} // verus!
