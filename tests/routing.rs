use gateway::config::{GatewayConfig, ServiceConfig};
use gateway::controller::{
    bad_gateway, health_check, not_found, port_suffix, service_unavailable, target_authority, target_uri,
    Controller,
};
use gateway::message::{Dispatch, HttpVersion, Reply, Request};
use gateway::routing::find_route;

fn service(path: &str, host: &str, port: &str) -> ServiceConfig {
    ServiceConfig {
        path: path.to_string(),
        target_service: host.to_string(),
        target_port: port.to_string(),
    }
}

fn gateway(services: Vec<ServiceConfig>) -> Controller {
    Controller::new(GatewayConfig {
        authorization_api_url: "http://auth.local".to_string(),
        gateway_port: "3000".to_string(),
        services,
    })
}

fn request(method: &str, path: &str) -> Request<Vec<u8>> {
    Request {
        method: method.to_string(),
        path: path.to_string(),
        query: None,
        version: HttpVersion::Http11,
        headers: vec![],
        body: vec![],
    }
}

fn forwarded_uri(d: Dispatch<Vec<u8>>) -> String {
    match d {
        Dispatch::Forward(out) => out.uri,
        Dispatch::Respond(resp) => panic!("answered {} instead of forwarding", resp.status),
    }
}

fn answer(d: Dispatch<Vec<u8>>) -> (u16, String) {
    match d {
        Dispatch::Respond(resp) => (resp.status, resp.body),
        Dispatch::Forward(out) => panic!("forwarded to {}", out.uri),
    }
}

#[test]
fn port_suffix_omits_default_ports() {
    assert_eq!(port_suffix(&"80".to_string()), "");
    assert_eq!(port_suffix(&"443".to_string()), "");
    assert_eq!(port_suffix(&"8080".to_string()), ":8080");
    assert_eq!(port_suffix(&"8443".to_string()), ":8443");
    assert_eq!(port_suffix(&"".to_string()), ":");
}

#[test]
fn authority_keeps_nondefault_port() {
    assert_eq!(target_authority(&service("/a", "backend.local", "8080")), "backend.local:8080");
    assert_eq!(target_authority(&service("/a", "backend.local", "80")), "backend.local");
}

#[test]
fn uri_for_example_route() {
    let s = service("/api", "backend.local", "8080");
    assert_eq!(
        target_uri(&s, &"/api/users".to_string(), &None),
        "http://backend.local:8080/api/users"
    );
}

#[test]
fn uri_for_https_port_omits_port() {
    let s = service("/api", "secure.local", "443");
    assert_eq!(target_uri(&s, &"/api".to_string(), &None), "http://secure.local/api");
}

#[test]
fn uri_keeps_query() {
    let s = service("/search", "backend.local", "9000");
    assert_eq!(
        target_uri(&s, &"/search".to_string(), &Some("q=1&page=2".to_string())),
        "http://backend.local:9000/search?q=1&page=2"
    );
}

#[test]
fn example_table_dispatch() {
    let c = gateway(vec![service("/api", "backend.local", "8080")]);
    assert_eq!(forwarded_uri(c.handle_request(request("GET", "/api"))), "http://backend.local:8080/api");
    // matching is exact: a longer path has no route
    assert_eq!(answer(c.handle_request(request("GET", "/api/users"))), (404, "404 Not Found".to_string()));
    assert_eq!(answer(c.handle_request(request("GET", "/unknown"))), (404, "404 Not Found".to_string()));
    assert_eq!(answer(c.handle_request(request("GET", "/health-check"))), (200, "OK".to_string()));
}

#[test]
fn exact_route_uri_for_example() {
    let c = gateway(vec![service("/api/users", "backend.local", "8080")]);
    assert_eq!(
        forwarded_uri(c.handle_request(request("GET", "/api/users"))),
        "http://backend.local:8080/api/users"
    );
}

#[test]
fn route_on_port_443_has_no_port_in_uri() {
    let c = gateway(vec![service("/pay", "pay.local", "443")]);
    assert_eq!(forwarded_uri(c.handle_request(request("POST", "/pay"))), "http://pay.local/pay");
}

#[test]
fn route_on_port_80_has_no_port_in_uri() {
    let c = gateway(vec![service("/web", "web.local", "80")]);
    assert_eq!(forwarded_uri(c.handle_request(request("GET", "/web"))), "http://web.local/web");
}

#[test]
fn health_check_with_empty_table() {
    let c = gateway(vec![]);
    assert_eq!(answer(c.handle_request(request("GET", "/health-check"))), (200, "OK".to_string()));
}

#[test]
fn health_check_wins_over_route() {
    let c = gateway(vec![service("/health-check", "backend.local", "8080")]);
    assert_eq!(answer(c.handle_request(request("GET", "/health-check"))), (200, "OK".to_string()));
    // only GET is the health check; other methods are routed
    assert_eq!(
        forwarded_uri(c.handle_request(request("POST", "/health-check"))),
        "http://backend.local:8080/health-check"
    );
}

#[test]
fn health_path_other_method_without_route_is_not_found() {
    let c = gateway(vec![]);
    assert_eq!(answer(c.handle_request(request("POST", "/health-check"))), (404, "404 Not Found".to_string()));
}

#[test]
fn no_prefix_or_trailing_slash_matching() {
    let c = gateway(vec![service("/api", "backend.local", "8080")]);
    assert_eq!(answer(c.handle_request(request("GET", "/api/"))).0, 404);
    assert_eq!(answer(c.handle_request(request("GET", "/ap"))).0, 404);
    assert_eq!(answer(c.handle_request(request("GET", "/API"))).0, 404);
}

#[test]
fn first_route_wins_on_duplicates() {
    let services = vec![
        service("/a", "first.local", "8001"),
        service("/b", "other.local", "8002"),
        service("/a", "second.local", "8003"),
    ];
    assert_eq!(find_route(&services, &"/a".to_string()), Some(0));
    assert_eq!(find_route(&services, &"/b".to_string()), Some(1));
    assert_eq!(find_route(&services, &"/c".to_string()), None);
    let c = gateway(services);
    assert_eq!(forwarded_uri(c.handle_request(request("GET", "/a"))), "http://first.local:8001/a");
}

#[test]
fn get_service_config_finds_route() {
    let c = gateway(vec![service("/x", "x.local", "1"), service("/y", "y.local", "2")]);
    let found = c.get_service_config(&"/y".to_string()).expect("route for /y");
    assert_eq!(found.target_service, "y.local");
    assert_eq!(found.target_port, "2");
    assert!(c.get_service_config(&"/z".to_string()).is_none());
}

#[test]
fn forwarded_request_keeps_everything_but_target() {
    let c = gateway(vec![service("/upload", "store.local", "7000")]);
    let req = Request {
        method: "PUT".to_string(),
        path: "/upload".to_string(),
        query: Some("id=7".to_string()),
        version: HttpVersion::Http2,
        headers: vec![
            ("accept".to_string(), b"*/*".to_vec()),
            ("x-tag".to_string(), b"one".to_vec()),
            ("x-tag".to_string(), b"two".to_vec()),
            ("connection".to_string(), b"keep-alive".to_vec()),
        ],
        body: b"payload".to_vec(),
    };
    let expected_headers = req.headers.clone();
    match c.handle_request(req) {
        Dispatch::Forward(out) => {
            assert_eq!(out.uri, "http://store.local:7000/upload?id=7");
            assert_eq!(out.method, "PUT");
            assert_eq!(out.version, HttpVersion::Http2);
            assert_eq!(out.headers, expected_headers);
            assert_eq!(out.body, b"payload".to_vec());
        }
        Dispatch::Respond(resp) => panic!("answered {}", resp.status),
    }
}

#[test]
fn same_request_same_decision() {
    let c = gateway(vec![service("/api", "backend.local", "8080")]);
    for path in ["/api", "/nope", "/health-check"] {
        let first = c.handle_request(request("GET", path));
        let second = c.handle_request(request("GET", path));
        match (first, second) {
            (Dispatch::Forward(a), Dispatch::Forward(b)) => assert_eq!(a.uri, b.uri),
            (Dispatch::Respond(a), Dispatch::Respond(b)) => {
                assert_eq!(a.status, b.status);
                assert_eq!(a.body, b.body);
            }
            _ => panic!("different decisions for {}", path),
        }
    }
}

#[test]
fn transport_failure_is_unavailable() {
    match Controller::forward_result::<u32>(Err("connection refused".to_string())) {
        Reply::Synthesized(resp) => {
            assert_eq!(resp.status, 503);
            assert_eq!(resp.body, "503 Service Unavailable: connection refused");
        }
        Reply::Passthrough(_) => panic!("passed through a failure"),
    }
}

#[test]
fn backend_response_passes_through() {
    // a backend's own error status is not remapped
    match Controller::forward_result::<u16>(Ok(500)) {
        Reply::Passthrough(status) => assert_eq!(status, 500),
        Reply::Synthesized(resp) => panic!("synthesized {}", resp.status),
    }
}

#[test]
fn synthesized_responses() {
    let ok = health_check();
    assert_eq!((ok.status, ok.body), (200, "OK".to_string()));
    let missing = not_found();
    assert_eq!((missing.status, missing.body), (404, "404 Not Found".to_string()));
    let bad = bad_gateway();
    assert_eq!((bad.status, bad.body), (502, "502 Bad Gateway".to_string()));
    let down = service_unavailable("timed out".to_string());
    assert_eq!((down.status, down.body), (503, "503 Service Unavailable: timed out".to_string()));
}
