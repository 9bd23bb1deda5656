use vstd::prelude::*;
use crate::proxy_core::models::certs::{CertDir, CertificateConfig, Email};
use crate::proxy_core::models::routes::Route;
use crate::proxy_core::models::tasks::TaskInterval;

verus! {

/// Start-up step that makes sure the certificate directory exists.
#[derive(Debug)]
pub struct HandleFileSystem {
    pub cert_dir: CertDir,
}

impl HandleFileSystem {
    pub fn new(cert_dir: CertDir) -> (h: Self)
        ensures
            h.cert_dir == cert_dir,
    {
        Self { cert_dir }
    }
}

/// Start-up step that prepares certificates: one configuration per route.
#[derive(Debug)]
pub struct HandleCertificates {
    pub certificate_configs: Vec<CertificateConfig>,
    pub task_interval: TaskInterval,
    pub email: Email,
}

/// The certificate configuration of a route: its host, type and DNS credentials, with the
/// common certificate directory.
pub open spec fn config_of_route(route: Route, cert_dir: CertDir) -> CertificateConfig {
    CertificateConfig {
        host: route.host,
        cert_dir: cert_dir,
        cert_type: route.cert_type,
        provider_config: route.dns_provider,
    }
}

/// A route's certificate configuration carries the route's own host, certificate type and DNS
/// credentials, and the common certificate directory.
pub proof fn lemma_config_of_route_keeps_route_fields(route: Route, cert_dir: CertDir)
    ensures
        config_of_route(route, cert_dir).host == route.host,
        config_of_route(route, cert_dir).cert_dir == cert_dir,
        config_of_route(route, cert_dir).cert_type == route.cert_type,
        config_of_route(route, cert_dir).provider_config == route.dns_provider,
{
}

impl HandleCertificates {
    pub fn new(cert_dir: CertDir, email: Email, routes: Vec<Route>, task_interval: TaskInterval) -> (h:
        Self)
        ensures
            h.certificate_configs@.len() == routes@.len(),
            forall|i: int|
                0 <= i < routes@.len() ==> #[trigger] h.certificate_configs@[i] == config_of_route(
                    routes@[i],
                    cert_dir,
                ),
            forall|i: int|
                0 <= i < routes@.len() ==> {
                    &&& (#[trigger] h.certificate_configs@[i]).host == routes@[i].host
                    &&& h.certificate_configs@[i].cert_dir == cert_dir
                    &&& h.certificate_configs@[i].cert_type == routes@[i].cert_type
                    &&& h.certificate_configs@[i].provider_config == routes@[i].dns_provider
                },
            h.task_interval == task_interval,
            h.email == email,
    {
        let mut certificate_configs: Vec<CertificateConfig> = Vec::new();
        let mut i: usize = 0;
        while i < routes.len()
            invariant
                i <= routes.len(),
                certificate_configs@.len() == i,
                forall|j: int|
                    0 <= j < i ==> #[trigger] certificate_configs@[j] == config_of_route(
                        routes@[j],
                        cert_dir,
                    ),
            decreases routes.len() - i,
        {
            let route = routes[i].clone();
            certificate_configs.push(
                CertificateConfig {
                    host: route.host,
                    cert_dir: cert_dir.clone(),
                    cert_type: route.cert_type,
                    provider_config: route.dns_provider,
                },
            );
            i = i + 1;
        }
        Self { certificate_configs, task_interval, email }
    }
}

} // verus!
