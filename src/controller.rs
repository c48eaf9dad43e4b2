use vstd::prelude::*;
use vstd::string::StringExecFns;

use crate::config::{GatewayConfig, ServiceConfig};
use crate::message::{Dispatch, OutboundRequest, Reply, Request, Response};
use crate::routing::{find_route, route_index};

verus! {

/// The suffix that a port adds to an authority: nothing for the protocol
/// defaults 80 and 443, else a colon and the port.
pub open spec fn port_suffix_of(port: Seq<char>) -> Seq<char> {
    if port == "80"@ || port == "443"@ {
        Seq::empty()
    } else {
        ":"@ + port
    }
}

/// The authority (host, then port unless it is a default) of a route's backend.
pub open spec fn authority_of(service: ServiceConfig) -> Seq<char> {
    service.target_service@ + port_suffix_of(service.target_port@)
}

/// The absolute URI that a request for `path` with `query` is sent to.
pub open spec fn uri_of(service: ServiceConfig, path: Seq<char>, query: Option<String>) -> Seq<char> {
    let tail = match query {
        Some(q) => "?"@ + q@,
        None => Seq::empty(),
    };
    "http://"@ + authority_of(service) + path + tail
}

/// The request is the gateway's own health check.
pub open spec fn is_health_check<B>(req: Request<B>) -> bool {
    req.method@ == "GET"@ && req.path@ == "/health-check"@
}

/// The health check's answer.
pub open spec fn is_health_response(resp: Response) -> bool {
    resp.status == 200 && resp.body@ == "OK"@
}

/// The answer for a path that no route has.
pub open spec fn is_not_found_response(resp: Response) -> bool {
    resp.status == 404 && resp.body@ == "404 Not Found"@
}

/// The answer when the backend could not be reached, for `reason`.
pub open spec fn is_unavailable_response(resp: Response, reason: Seq<char>) -> bool {
    resp.status == 503 && resp.body@ == "503 Service Unavailable: "@ + reason
}

/// `out` is `req` rebuilt for `service`: only the target changes.
pub open spec fn is_rebuilt_for<B>(out: OutboundRequest<B>, req: Request<B>, service: ServiceConfig) -> bool {
    &&& out.uri@ == uri_of(service, req.path@, req.query)
    &&& out.method@ == req.method@
    &&& out.version == req.version
    &&& out.headers@ == req.headers@
    &&& out.body == req.body
}

/// `""` for the default ports 80 and 443, `":{port}"` for any other.
pub fn port_suffix(port: &String) -> (r: String)
    ensures
        r@ == port_suffix_of(port@),
{
    let http = String::from_str("80");
    let https = String::from_str("443");
    if *port == http || *port == https {
        String::new()
    } else {
        String::from_str(":").concat(port.as_str())
    }
}

/// The backend's host followed by its port suffix.
pub fn target_authority(service: &ServiceConfig) -> (r: String)
    ensures
        r@ == authority_of(*service),
{
    let suffix = port_suffix(&service.target_port);
    service.target_service.clone().concat(suffix.as_str())
}

/// `http://{authority}{path}`, then `?{query}` where there is a query.
pub fn target_uri(service: &ServiceConfig, path: &String, query: &Option<String>) -> (r: String)
    ensures
        r@ == uri_of(*service, path@, *query),
{
    let authority = target_authority(service);
    let uri = String::from_str("http://").concat(authority.as_str()).concat(path.as_str());
    match query {
        Some(q) => uri.concat("?").concat(q.as_str()),
        None => uri,
    }
}

/// `200 OK` with body `OK`.
pub fn health_check() -> (r: Response)
    ensures
        is_health_response(r),
{
    Response { status: 200, body: String::from_str("OK") }
}

/// `404 Not Found` with body `404 Not Found`.
pub fn not_found() -> (r: Response)
    ensures
        is_not_found_response(r),
{
    Response { status: 404, body: String::from_str("404 Not Found") }
}

/// `502 Bad Gateway` with body `502 Bad Gateway`, for a rebuilt request that
/// the transport cannot carry (a header or URI it refuses).
pub fn bad_gateway() -> (r: Response)
    ensures
        r.status == 502,
        r.body@ == "502 Bad Gateway"@,
{
    Response { status: 502, body: String::from_str("502 Bad Gateway") }
}

/// `503 Service Unavailable`, with the failure's reason in the body.
pub fn service_unavailable(reason: String) -> (r: Response)
    ensures
        is_unavailable_response(r, reason@),
{
    Response { status: 503, body: String::from_str("503 Service Unavailable: ").concat(reason.as_str()) }
}

/// `r` is what the gateway does with `req` under `routes`: the health check
/// comes first, whatever `routes` holds; then the first route of the path,
/// whose backend gets the rebuilt request; else 404.
pub open spec fn is_dispatch_for<B>(routes: Seq<ServiceConfig>, req: Request<B>, r: Dispatch<B>) -> bool {
    if is_health_check(req) {
        r matches Dispatch::Respond(resp) && is_health_response(resp)
    } else {
        match route_index(routes, req.path@) {
            Some(i) => r matches Dispatch::Forward(out) && is_rebuilt_for(out, req, routes[i]),
            None => r matches Dispatch::Respond(resp) && is_not_found_response(resp),
        }
    }
}

/// `r` is what the caller receives once the backend call ended in `outcome`.
pub open spec fn is_reply_for<R>(outcome: Result<R, String>, r: Reply<R>) -> bool {
    match outcome {
        Ok(res) => r == Reply::<R>::Passthrough(res),
        Err(reason) => r matches Reply::Synthesized(resp) && is_unavailable_response(resp, reason@),
    }
}

/// The forwarding engine: it owns the routing table and decides, for each
/// inbound request, what the gateway answers.
pub struct Controller {
    config: GatewayConfig,
}

impl Controller {
    /// The configuration the controller was made with.
    pub closed spec fn spec_config(&self) -> GatewayConfig {
        self.config
    }

    /// The routing table, in declaration order.
    pub open spec fn routes(&self) -> Seq<ServiceConfig> {
        self.spec_config().services@
    }

    pub fn new(config: GatewayConfig) -> (r: Controller)
        ensures
            r.spec_config() == config,
    {
        Controller { config }
    }

    /// The first route, in declaration order, whose path is `path`.
    pub fn get_service_config(&self, path: &String) -> (r: Option<&ServiceConfig>)
        ensures
            match route_index(self.routes(), path@) {
                Some(i) => r matches Some(s) && *s == self.routes()[i],
                None => r is None,
            },
    {
        match find_route(&self.config.services, path) {
            Some(i) => Some(&self.config.services[i]),
            None => None,
        }
    }

    /// Rebuilds `req` for `service`: the target URI is the backend's
    /// authority followed by the original path and query; method, version,
    /// headers and body are moved over unchanged.
    pub fn build_downstream_request<B>(&self, req: Request<B>, service: &ServiceConfig) -> (r: OutboundRequest<B>)
        ensures
            is_rebuilt_for(r, req, *service),
    {
        let uri = target_uri(service, &req.path, &req.query);
        OutboundRequest {
            uri,
            method: req.method,
            version: req.version,
            headers: req.headers,
            body: req.body,
        }
    }

    /// Decides what the gateway does with `req`: the health check is
    /// answered first, whatever the routing table holds; a path with no
    /// route is answered with 404; any other request is rebuilt for the
    /// first route of its path.
    pub fn handle_request<B>(&self, req: Request<B>) -> (r: Dispatch<B>)
        ensures
            is_dispatch_for(self.routes(), req, r),
    {
        let health_path = String::from_str("/health-check");
        let get = String::from_str("GET");
        if req.path == health_path && req.method == get {
            return Dispatch::Respond(health_check());
        }
        match self.get_service_config(&req.path) {
            Some(service) => Dispatch::Forward(self.build_downstream_request(req, service)),
            None => Dispatch::Respond(not_found()),
        }
    }

    /// Maps the outcome of the backend call: a response, whatever its
    /// status, is passed through; a transport failure becomes 503 with its
    /// reason in the body.
    pub fn forward_result<R>(outcome: Result<R, String>) -> (r: Reply<R>)
        ensures
            is_reply_for(outcome, r),
    {
        match outcome {
            Ok(res) => Reply::Passthrough(res),
            Err(reason) => Reply::Synthesized(service_unavailable(reason)),
        }
    }
}

} // verus!
