use vstd::prelude::*;
use crate::proxy_core::models::certs::CertificateType;
use crate::proxy_core::models::dns::ProviderCredentail;

verus! {

/// One `[[routes]]` entry of the configuration file.
#[derive(Debug)]
pub struct Route {
    pub host: Host,
    pub upstream: Upstream,
    pub cert_type: CertificateType,
    pub dns_provider: Option<ProviderCredentail>,
}

impl Clone for Route {
    fn clone(&self) -> (res: Self)
        ensures
            res == *self,
    {
        let dns_provider = match &self.dns_provider {
            Some(p) => Some(p.clone()),
            None => None,
        };
        Route {
            host: self.host.clone(),
            upstream: self.upstream.clone(),
            cert_type: self.cert_type,
            dns_provider,
        }
    }
}

/// The `Host` header value a route answers to; matched exactly, port included.
#[derive(Debug)]
pub struct Host(pub String);

impl View for Host {
    type V = Seq<char>;

    open spec fn view(&self) -> Seq<char> {
        self.0@
    }
}

impl Clone for Host {
    fn clone(&self) -> (res: Self)
        ensures
            res == *self,
    {
        Host(self.0.clone())
    }
}

impl Host {
    pub fn from(s: String) -> (res: Self)
        ensures
            res@ == s@,
    {
        Host(s)
    }

    pub fn as_str(&self) -> (res: &str)
        ensures
            res@ == self@,
    {
        self.0.as_str()
    }
}

/// The `host:port` a route forwards to.
#[derive(Debug)]
pub struct Upstream(pub String);

impl View for Upstream {
    type V = Seq<char>;

    open spec fn view(&self) -> Seq<char> {
        self.0@
    }
}

impl Clone for Upstream {
    fn clone(&self) -> (res: Self)
        ensures
            res == *self,
    {
        Upstream(self.0.clone())
    }
}

impl Upstream {
    pub fn from(s: String) -> (res: Self)
        ensures
            res@ == s@,
    {
        Upstream(s)
    }

    pub fn as_str(&self) -> (res: &str)
        ensures
            res@ == self@,
    {
        self.0.as_str()
    }
}

} // verus!
