use vstd::prelude::*;
use crate::proxy_core::models::routes::Host;

verus! {

/// The name prefix of every DNS-01 challenge record.
pub fn acme_challenge_prefix() -> (r: &'static str)
    ensures
        r@ == "_acme-challenge."@,
{
    "_acme-challenge."
}

/// The challenge prefix as an owned string.
pub fn default_challenge_prefix() -> (r: String)
    ensures
        r@ == "_acme-challenge."@,
{
    acme_challenge_prefix().to_owned()
}

/// A DNS record as the provider reports it after an upsert.
#[derive(Debug)]
pub struct Record {
    pub provider_id: RecordId,
    pub name: String,
    pub value: String,
}

/// Credentials of the DNS provider that serves a route's zone.
#[derive(Debug)]
pub enum ProviderCredentail {
    Cloudflare(CloudflareProvider),
}

impl Clone for ProviderCredentail {
    fn clone(&self) -> (res: Self)
        ensures
            res == *self,
    {
        match self {
            ProviderCredentail::Cloudflare(c) => ProviderCredentail::Cloudflare(c.clone()),
        }
    }
}

/// Cloudflare API access for one zone.
#[derive(Debug)]
pub struct CloudflareProvider {
    pub api_token: ApiToken,
    pub zone_id: CFZoneId,
}

impl Clone for CloudflareProvider {
    fn clone(&self) -> (res: Self)
        ensures
            res == *self,
    {
        CloudflareProvider { api_token: self.api_token.clone(), zone_id: self.zone_id.clone() }
    }
}

/// Prefix put in front of the host to name its challenge record.
#[derive(Debug)]
pub struct ChallengePrefix(pub String);

impl View for ChallengePrefix {
    type V = Seq<char>;

    open spec fn view(&self) -> Seq<char> {
        self.0@
    }
}

impl Clone for ChallengePrefix {
    fn clone(&self) -> (res: Self)
        ensures
            res == *self,
    {
        ChallengePrefix(self.0.clone())
    }
}

impl ChallengePrefix {
    pub fn from(s: String) -> (res: Self)
        ensures
            res@ == s@,
    {
        ChallengePrefix(s)
    }

    pub fn as_str(&self) -> (res: &str)
        ensures
            res@ == self@,
    {
        self.0.as_str()
    }
}

/// Bearer token of a DNS provider's API.
#[derive(Debug)]
pub struct ApiToken(pub String);

impl View for ApiToken {
    type V = Seq<char>;

    open spec fn view(&self) -> Seq<char> {
        self.0@
    }
}

impl Clone for ApiToken {
    fn clone(&self) -> (res: Self)
        ensures
            res == *self,
    {
        ApiToken(self.0.clone())
    }
}

impl ApiToken {
    pub fn from(s: String) -> (res: Self)
        ensures
            res@ == s@,
    {
        ApiToken(s)
    }

    pub fn as_str(&self) -> (res: &str)
        ensures
            res@ == self@,
    {
        self.0.as_str()
    }
}

/// A provider's identifier of a DNS record.
#[derive(Debug)]
pub struct RecordId(pub String);

impl View for RecordId {
    type V = Seq<char>;

    open spec fn view(&self) -> Seq<char> {
        self.0@
    }
}

impl Clone for RecordId {
    fn clone(&self) -> (res: Self)
        ensures
            res == *self,
    {
        RecordId(self.0.clone())
    }
}

impl RecordId {
    pub fn from(s: String) -> (res: Self)
        ensures
            res@ == s@,
    {
        RecordId(s)
    }

    pub fn as_str(&self) -> (res: &str)
        ensures
            res@ == self@,
    {
        self.0.as_str()
    }
}

/// Cloudflare zone identifier.
#[derive(Debug)]
pub struct CFZoneId(pub String);

impl View for CFZoneId {
    type V = Seq<char>;

    open spec fn view(&self) -> Seq<char> {
        self.0@
    }
}

impl Clone for CFZoneId {
    fn clone(&self) -> (res: Self)
        ensures
            res == *self,
    {
        CFZoneId(self.0.clone())
    }
}

impl CFZoneId {
    pub fn from(s: String) -> (res: Self)
        ensures
            res@ == s@,
    {
        CFZoneId(s)
    }

    pub fn as_str(&self) -> (res: &str)
        ensures
            res@ == self@,
    {
        self.0.as_str()
    }
}

} // verus!
