use vstd::prelude::*;
use vstd::string::*;
use crate::proxy_core::models::certs::CertificateType;
use crate::proxy_core::models::host_map::HostMap;
use crate::proxy_core::models::proxy::{ProxyRoute, ProxyTls};
use crate::proxy_core::models::routes::Route;
use crate::text::concat_str;

verus! {

/// Routes keyed by the exact `Host` header value they answer to.
pub type ProxyRouteMap = HostMap<ProxyRoute>;

/// The map that inserting `routes` one after another yields: a later route for a host
/// replaces an earlier one.
pub open spec fn routes_to_map(routes: Seq<ProxyRoute>) -> Map<Seq<char>, ProxyRoute>
    decreases routes.len(),
{
    if routes.len() == 0 {
        Map::<Seq<char>, ProxyRoute>::empty()
    } else {
        routes_to_map(routes.drop_last()).insert(routes.last().host@, routes.last())
    }
}

/// A routing table built from a list of routes knows exactly the hosts that some route
/// names, and answers each with the last route listed for it.
pub proof fn lemma_routes_map_last_wins(routes: Seq<ProxyRoute>, h: Seq<char>)
    ensures
        routes_to_map(routes).contains_key(h) <==> exists|i: int|
            0 <= i < routes.len() && (#[trigger] routes[i]).host@ == h,
        routes_to_map(routes).contains_key(h) ==> exists|i: int|
            {
                &&& 0 <= i < routes.len()
                &&& (#[trigger] routes[i]).host@ == h
                &&& routes_to_map(routes)[h] == routes[i]
                &&& forall|j: int| i < j < routes.len() ==> (#[trigger] routes[j]).host@ != h
            },
    decreases routes.len(),
{
    if routes.len() > 0 {
        let p = routes.drop_last();
        lemma_routes_map_last_wins(p, h);
        let n = routes.len() - 1;
        assert(routes[n] == routes.last());
        if routes.last().host@ == h {
            assert(routes_to_map(routes)[h] == routes[n]);
        } else {
            if routes_to_map(routes).contains_key(h) {
                let i = choose|i: int|
                    {
                        &&& 0 <= i < p.len()
                        &&& (#[trigger] p[i]).host@ == h
                        &&& routes_to_map(p)[h] == p[i]
                        &&& forall|j: int| i < j < p.len() ==> (#[trigger] p[j]).host@ != h
                    };
                assert(routes[i] == p[i]);
                assert forall|j: int| i < j < routes.len() implies (#[trigger] routes[j]).host@ != h by {
                    if j < p.len() {
                        assert(routes[j] == p[j]);
                    }
                }
            }
            assert((exists|i: int| 0 <= i < routes.len() && (#[trigger] routes[i]).host@ == h) ==> (
            exists|i: int| 0 <= i < p.len() && (#[trigger] p[i]).host@ == h)) by {
                if exists|i: int| 0 <= i < routes.len() && (#[trigger] routes[i]).host@ == h {
                    let i = choose|i: int| 0 <= i < routes.len() && (#[trigger] routes[i]).host@ == h;
                    assert(i < p.len());
                    assert(p[i] == routes[i]);
                }
            }
            assert((exists|i: int| 0 <= i < p.len() && (#[trigger] p[i]).host@ == h) ==> (exists|
                i: int,
            | 0 <= i < routes.len() && (#[trigger] routes[i]).host@ == h)) by {
                if exists|i: int| 0 <= i < p.len() && (#[trigger] p[i]).host@ == h {
                    let i = choose|i: int| 0 <= i < p.len() && (#[trigger] p[i]).host@ == h;
                    assert(p[i] == routes[i]);
                }
            }
        }
    }
}

/// Builds the routing table, later routes winning over earlier ones for the same host.
pub fn build_routes_map(routes: Vec<ProxyRoute>) -> (m: ProxyRouteMap)
    ensures
        m@ == routes_to_map(routes@),
{
    let mut m = HostMap::new();
    let mut i: usize = 0;
    let ghost all = routes@;
    assert(all.take(0) =~= Seq::<ProxyRoute>::empty());
    while i < routes.len()
        invariant
            i <= routes.len(),
            all == routes@,
            m@ == routes_to_map(all.take(i as int)),
        decreases routes.len() - i,
    {
        let route = routes[i].clone();
        let host = route.host.clone();
        m.insert(host, route);
        proof {
            let t = all.take(i as int + 1);
            assert(t.drop_last() =~= all.take(i as int));
            assert(t.last() == all[i as int]);
        }
        i = i + 1;
    }
    assert(all.take(routes.len() as int) =~= all);
    m
}

/// The proxy route of a configured route: served over TLS exactly when its certificate type is
/// not `NoTls`.
pub open spec fn proxy_route_of(route: Route) -> ProxyRoute {
    ProxyRoute {
        host: route.host,
        upstream: route.upstream,
        tls: ProxyTls(route.cert_type != CertificateType::NoTls),
    }
}

pub open spec fn proxy_routes_of(routes: Seq<Route>) -> Seq<ProxyRoute> {
    routes.map_values(|r: Route| proxy_route_of(r))
}

/// What the plain listener does with a host, as the configured routes decide it: a host that
/// no route names is misdirected; otherwise the last route listed for the host decides, and the
/// host is redirected to HTTPS exactly when that route's certificate type is not `NoTls`.
pub proof fn lemma_plain_listener_routing(routes: Seq<Route>, h: Seq<char>)
    ensures
        routes_to_map(proxy_routes_of(routes)).contains_key(h) <==> exists|i: int|
            0 <= i < routes.len() && (#[trigger] routes[i]).host@ == h,
        routes_to_map(proxy_routes_of(routes)).contains_key(h) ==> exists|i: int|
            {
                &&& 0 <= i < routes.len()
                &&& (#[trigger] routes[i]).host@ == h
                &&& forall|j: int| i < j < routes.len() ==> (#[trigger] routes[j]).host@ != h
                &&& routes_to_map(proxy_routes_of(routes))[h].tls.0 == (routes[i].cert_type
                    != CertificateType::NoTls)
                &&& routes_to_map(proxy_routes_of(routes))[h].upstream == routes[i].upstream
            },
{
    let pr = proxy_routes_of(routes);
    lemma_routes_map_last_wins(pr, h);
    assert forall|i: int| 0 <= i < routes.len() implies #[trigger] pr[i] == proxy_route_of(routes[i]) by {}
    if exists|i: int| 0 <= i < routes.len() && (#[trigger] routes[i]).host@ == h {
        let i = choose|i: int| 0 <= i < routes.len() && (#[trigger] routes[i]).host@ == h;
        assert(pr[i].host@ == h);
    }
    if exists|i: int| 0 <= i < pr.len() && (#[trigger] pr[i]).host@ == h {
        let i = choose|i: int| 0 <= i < pr.len() && (#[trigger] pr[i]).host@ == h;
        assert(routes[i].host@ == h);
    }
    if routes_to_map(pr).contains_key(h) {
        let i = choose|i: int|
            {
                &&& 0 <= i < pr.len()
                &&& (#[trigger] pr[i]).host@ == h
                &&& routes_to_map(pr)[h] == pr[i]
                &&& forall|j: int| i < j < pr.len() ==> (#[trigger] pr[j]).host@ != h
            };
        assert(routes[i].host@ == h);
        assert forall|j: int| i < j < routes.len() implies (#[trigger] routes[j]).host@ != h by {
            assert(pr[j].host@ != h);
        }
    }
}

/// The proxy routes for the configured routes: a route is served over TLS exactly when it
/// has a certificate type other than `NoTls`.
pub fn proxy_routes_from(routes: &Vec<Route>) -> (res: Vec<ProxyRoute>)
    ensures
        res@ == proxy_routes_of(routes@),
        res@.len() == routes@.len(),
        forall|i: int|
            0 <= i < routes@.len() ==> {
                &&& (#[trigger] res@[i]).host == routes@[i].host
                &&& res@[i].upstream == routes@[i].upstream
                &&& res@[i].tls.0 == (routes@[i].cert_type != CertificateType::NoTls)
            },
{
    let mut res: Vec<ProxyRoute> = Vec::new();
    let mut i: usize = 0;
    while i < routes.len()
        invariant
            i <= routes.len(),
            res@.len() == i,
            forall|j: int|
                0 <= j < i ==> {
                    &&& (#[trigger] res@[j]).host == routes@[j].host
                    &&& res@[j].upstream == routes@[j].upstream
                    &&& res@[j].tls.0 == (routes@[j].cert_type != CertificateType::NoTls)
                },
        decreases routes.len() - i,
    {
        let route = &routes[i];
        res.push(
            ProxyRoute {
                host: route.host.clone(),
                upstream: route.upstream.clone(),
                tls: ProxyTls::from(route.cert_type != CertificateType::NoTls),
            },
        );
        i = i + 1;
    }
    assert(res@ =~= proxy_routes_of(routes@));
    res
}

/// What the proxy does with a request before choosing an upstream.
#[derive(Debug)]
pub enum RequestDecision {
    /// Go on and forward the request.
    Pass,
    /// 400 Bad Request: the request has no readable `Host` header.
    BadRequest,
    /// 421 Misdirected Request: no route answers to the host.
    Misdirected,
    /// 301 Moved Permanently to `location`, with an empty body.
    RedirectToHttps { location: String },
}

/// Where a request is forwarded: the route's upstream over plain HTTP, with the route's host
/// as SNI.
#[derive(Debug)]
pub struct UpstreamPeer {
    pub address: String,
    pub tls: bool,
    pub sni: String,
}

/// The request handler shared by the HTTP and the HTTPS listener.
#[derive(Debug)]
pub struct ProxyToUpstream {
    pub routes_map: ProxyRouteMap,
    /// Set on the plain HTTP listener: requests are checked against the routes there and TLS
    /// routes are redirected to HTTPS.
    pub upgrade_to_https: bool,
}

/// The redirect target of a TLS route.
pub open spec fn https_location(host: Seq<char>) -> Seq<char> {
    "https://"@ + host
}

/// The status code for a host that no route answers to.
pub const MISDIRECTED_REQUEST: u16 = 421;

/// The status code for a request without a readable `Host` header.
pub const BAD_REQUEST: u16 = 400;

impl ProxyToUpstream {
    pub fn new(routes_map: ProxyRouteMap, upgrade_to_https: bool) -> (p: Self)
        ensures
            p.routes_map == routes_map,
            p.upgrade_to_https == upgrade_to_https,
    {
        ProxyToUpstream { routes_map, upgrade_to_https }
    }

    /// Decides a request by its `Host` header value (`None` when the header is missing or not
    /// visible ASCII). On the plain listener, a host without a route gets 421, a TLS route gets
    /// a 301 to `https://<host>`, and any other route passes; on the TLS listener every request
    /// passes this stage.
    pub fn request_filter(&self, host: Option<&str>) -> (d: RequestDecision)
        ensures
            !self.upgrade_to_https ==> d is Pass,
            self.upgrade_to_https ==> match host {
                None => d is BadRequest,
                Some(h) => if !self.routes_map@.contains_key(h@) {
                    d is Misdirected
                } else if self.routes_map@[h@].tls.0 {
                    d matches RequestDecision::RedirectToHttps { location } && location@
                        == https_location(self.routes_map@[h@].host@)
                } else {
                    d is Pass
                },
            },
    {
        if !self.upgrade_to_https {
            return RequestDecision::Pass;
        }
        let host = match host {
            Some(h) => h,
            None => return RequestDecision::BadRequest,
        };
        match self.routes_map.get(host) {
            None => RequestDecision::Misdirected,
            Some(route) => if route.tls.get() {
                RequestDecision::RedirectToHttps {
                    location: concat_str("https://", route.host.as_str()),
                }
            } else {
                RequestDecision::Pass
            },
        }
    }

    /// The upstream for a request by its `Host` header value: 400 without a host, 421 for a
    /// host without a route, else the route's upstream.
    pub fn upstream_peer(&self, host: Option<&str>) -> (res: Result<UpstreamPeer, u16>)
        ensures
            match host {
                None => res == Err::<UpstreamPeer, u16>(BAD_REQUEST),
                Some(h) => if self.routes_map@.contains_key(h@) {
                    res matches Ok(peer) && peer.address@ == self.routes_map@[h@].upstream@
                        && !peer.tls && peer.sni@ == self.routes_map@[h@].host@
                } else {
                    res == Err::<UpstreamPeer, u16>(MISDIRECTED_REQUEST)
                },
            },
    {
        let host = match host {
            Some(h) => h,
            None => return Err(BAD_REQUEST),
        };
        match self.routes_map.get(host) {
            None => Err(MISDIRECTED_REQUEST),
            Some(route) => Ok(
                UpstreamPeer {
                    address: route.upstream.as_str().to_owned(),
                    tls: false,
                    sni: route.host.as_str().to_owned(),
                },
            ),
        }
    }
}

} // verus!
