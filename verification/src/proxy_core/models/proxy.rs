use vstd::prelude::*;
use crate::proxy_core::models::routes::{Host, Upstream};

verus! {

/// A route as the proxy serves it.
#[derive(Debug)]
pub struct ProxyRoute {
    pub host: Host,
    pub upstream: Upstream,
    pub tls: ProxyTls,
}

impl Clone for ProxyRoute {
    fn clone(&self) -> (res: Self)
        ensures
            res == *self,
    {
        ProxyRoute { host: self.host.clone(), upstream: self.upstream.clone(), tls: self.tls }
    }
}

/// Listener settings of the proxy.
#[derive(Debug)]
pub struct ProxyConfig {
    pub http_port: ProxyPort,
    pub https_port: ProxyPort,
    pub input_address: ProxyInputAddress,
}

impl Clone for ProxyConfig {
    fn clone(&self) -> (res: Self)
        ensures
            res == *self,
    {
        ProxyConfig {
            http_port: self.http_port,
            https_port: self.https_port,
            input_address: self.input_address.clone(),
        }
    }
}

/// Whether a route is served over TLS (and redirected to HTTPS from the plain listener).
#[derive(Debug, Clone, Copy)]
pub struct ProxyTls(pub bool);

impl ProxyTls {
    pub fn from(s: bool) -> (res: Self)
        ensures
            res.0 == s,
    {
        ProxyTls(s)
    }

    pub fn get(&self) -> (res: bool)
        ensures
            res == self.0,
    {
        self.0
    }
}

/// A listener port.
#[derive(Debug, Clone, Copy)]
pub struct ProxyPort(pub u16);

impl ProxyPort {
    pub fn from(s: u16) -> (res: Self)
        ensures
            res.0 == s,
    {
        ProxyPort(s)
    }

    pub fn get(&self) -> (res: u16)
        ensures
            res == self.0,
    {
        self.0
    }
}

/// The address the listeners bind to.
#[derive(Debug)]
pub struct ProxyInputAddress(pub String);

impl View for ProxyInputAddress {
    type V = Seq<char>;

    open spec fn view(&self) -> Seq<char> {
        self.0@
    }
}

impl Clone for ProxyInputAddress {
    fn clone(&self) -> (res: Self)
        ensures
            res == *self,
    {
        ProxyInputAddress(self.0.clone())
    }
}

impl ProxyInputAddress {
    pub fn from(s: String) -> (res: Self)
        ensures
            res@ == s@,
    {
        ProxyInputAddress(s)
    }

    pub fn as_str(&self) -> (res: &str)
        ensures
            res@ == self@,
    {
        self.0.as_str()
    }
}

} // verus!
