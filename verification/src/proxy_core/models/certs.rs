use vstd::prelude::*;
use crate::proxy_core::models::dns::ProviderCredentail;
use crate::proxy_core::models::filesystem::SafePath;
use crate::proxy_core::models::host_map::HostMap;
use crate::proxy_core::models::routes::Host;

verus! {

/// How a route gets its TLS certificate; `NoTls` means the route is served over plain HTTP only.
#[derive(Debug, Clone, Copy, PartialEq, Eq, Structural)]
pub enum CertificateType {
    SelfSigned,
    Acme,
    NoTls,
}

impl Default for CertificateType {
    fn default() -> (res: Self)
        ensures
            res == CertificateType::NoTls,
    {
        CertificateType::NoTls
    }
}

/// What the certificate handlers need to know about one route.
#[derive(Debug)]
pub struct CertificateConfig {
    pub host: Host,
    pub cert_dir: CertDir,
    pub cert_type: CertificateType,
    pub provider_config: Option<ProviderCredentail>,
}

impl Clone for CertificateConfig {
    fn clone(&self) -> (res: Self)
        ensures
            res == *self,
    {
        let provider_config = match &self.provider_config {
            Some(p) => Some(p.clone()),
            None => None,
        };
        CertificateConfig {
            host: self.host.clone(),
            cert_dir: self.cert_dir.clone(),
            cert_type: self.cert_type,
            provider_config,
        }
    }
}

/// Where an ACME order stands after one renewal step.
#[derive(Debug, Clone, Copy, PartialEq, Eq, Structural)]
pub enum OrderOutcome {
    /// The certificate was issued and swapped in.
    Issued,
    /// The order cannot make progress and is forgotten.
    Dead,
    /// The DNS record is written; the order is resumed on the next tick.
    Waiting,
}

/// The certificates being served, by host; `M` is the parsed certificate and key.
pub type TlsCerts<M> = HostMap<M>;

pub type KeyPath = SafePath;

pub type CertPath = SafePath;

pub type CertAccountPath = SafePath;

/// Contact address given to the ACME directory.
#[derive(Debug)]
pub struct Email(pub String);

impl View for Email {
    type V = Seq<char>;

    open spec fn view(&self) -> Seq<char> {
        self.0@
    }
}

impl Clone for Email {
    fn clone(&self) -> (res: Self)
        ensures
            res == *self,
    {
        Email(self.0.clone())
    }
}

impl Email {
    pub fn from(s: String) -> (res: Self)
        ensures
            res@ == s@,
    {
        Email(s)
    }

    pub fn as_str(&self) -> (res: &str)
        ensures
            res@ == self@,
    {
        self.0.as_str()
    }
}

/// Directory that holds certificates, keys and the ACME account file.
#[derive(Debug)]
pub struct CertDir(pub String);

impl View for CertDir {
    type V = Seq<char>;

    open spec fn view(&self) -> Seq<char> {
        self.0@
    }
}

impl Clone for CertDir {
    fn clone(&self) -> (res: Self)
        ensures
            res == *self,
    {
        CertDir(self.0.clone())
    }
}

impl CertDir {
    pub fn from(s: String) -> (res: Self)
        ensures
            res@ == s@,
    {
        CertDir(s)
    }

    pub fn as_str(&self) -> (res: &str)
        ensures
            res@ == self@,
    {
        self.0.as_str()
    }
}

} // verus!
