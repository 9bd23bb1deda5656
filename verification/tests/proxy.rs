use reverse_proxy::proxy_core::handlers::proxy::{
    build_routes_map, proxy_routes_from, ProxyToUpstream, RequestDecision,
};
use reverse_proxy::proxy_core::models::certs::CertificateType;
use reverse_proxy::proxy_core::models::proxy::{ProxyRoute, ProxyTls};
use reverse_proxy::proxy_core::models::routes::{Host, Route, Upstream};

fn route(host: &str, upstream: &str, cert_type: CertificateType) -> Route {
    Route {
        host: Host::from(host.to_string()),
        upstream: Upstream::from(upstream.to_string()),
        cert_type,
        dns_provider: None,
    }
}

fn routes() -> Vec<Route> {
    vec![
        route("app.example.com", "host.docker.internal:3000", CertificateType::NoTls),
        route("api.example.com", "host.docker.internal:8000", CertificateType::SelfSigned),
        route("blog.example.com", "host.docker.internal:2000", CertificateType::Acme),
    ]
}

fn handler(upgrade: bool) -> ProxyToUpstream {
    ProxyToUpstream::new(build_routes_map(proxy_routes_from(&routes())), upgrade)
}

#[test]
fn tls_flag_follows_cert_type() {
    let pr = proxy_routes_from(&routes());
    assert_eq!(pr.len(), 3);
    assert!(!pr[0].tls.get());
    assert!(pr[1].tls.get());
    assert!(pr[2].tls.get());
    assert_eq!(pr[2].upstream.as_str(), "host.docker.internal:2000");
}

#[test]
fn plain_listener_redirects_tls_routes() {
    let h = handler(true);
    match h.request_filter(Some("api.example.com")) {
        RequestDecision::RedirectToHttps { location } => assert_eq!(location, "https://api.example.com"),
        other => panic!("unexpected {:?}", other),
    }
    assert!(matches!(h.request_filter(Some("app.example.com")), RequestDecision::Pass));
}

#[test]
fn unknown_host_is_misdirected() {
    let h = handler(true);
    assert!(matches!(h.request_filter(Some("other.example.com")), RequestDecision::Misdirected));
    assert_eq!(h.upstream_peer(Some("other.example.com")).unwrap_err(), 421);
}

#[test]
fn host_with_port_does_not_match() {
    let h = handler(true);
    assert!(matches!(h.request_filter(Some("app.example.com:443")), RequestDecision::Misdirected));
    assert_eq!(handler(false).upstream_peer(Some("app.example.com:443")).unwrap_err(), 421);
}

#[test]
fn missing_host_is_bad_request() {
    assert!(matches!(handler(true).request_filter(None), RequestDecision::BadRequest));
    assert_eq!(handler(false).upstream_peer(None).unwrap_err(), 400);
}

#[test]
fn tls_listener_passes_every_request_filter() {
    let h = handler(false);
    assert!(matches!(h.request_filter(Some("nowhere")), RequestDecision::Pass));
    assert!(matches!(h.request_filter(None), RequestDecision::Pass));
}

#[test]
fn upstream_peer_uses_route() {
    let peer = handler(false).upstream_peer(Some("blog.example.com")).unwrap();
    assert_eq!(peer.address, "host.docker.internal:2000");
    assert_eq!(peer.sni, "blog.example.com");
    assert!(!peer.tls);
}

#[test]
fn later_route_for_same_host_wins() {
    let rs = vec![
        ProxyRoute {
            host: Host::from("a".to_string()),
            upstream: Upstream::from("first:1".to_string()),
            tls: ProxyTls::from(false),
        },
        ProxyRoute {
            host: Host::from("a".to_string()),
            upstream: Upstream::from("second:2".to_string()),
            tls: ProxyTls::from(true),
        },
    ];
    let map = build_routes_map(rs);
    assert_eq!(map.len(), 1);
    assert_eq!(map.get("a").unwrap().upstream.as_str(), "second:2");
}
