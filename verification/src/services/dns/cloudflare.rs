use vstd::prelude::*;
use vstd::string::*;
use crate::error::Error;
use crate::proxy_core::models::dns::{
    default_challenge_prefix, ChallengePrefix, CloudflareProvider, ProviderCredentail, Record, RecordId,
};
use crate::proxy_core::models::routes::Host;
use crate::text::{concat3, concat_str};

verus! {

/// The HTTP client that talks to the DNS provider's API.
#[verifier::external_type_specification]
#[verifier::external_body]
pub struct ExClient(reqwest::Client);

/// The DNS service that writes a host's challenge records through the Cloudflare API.
pub struct Cloudflare {
    pub client: reqwest::Client,
    pub host: Host,
    pub config: CloudflareProvider,
    pub challenge_prefix: ChallengePrefix,
}

/// Base URL of the Cloudflare API.
pub const API_BASE: &'static str = "https://api.cloudflare.com/client/v4";

/// The comment stored with every challenge record.
pub const RECORD_COMMENT: &'static str = "automated with reverse-proxy. don't touch :pray:";

/// The DNS service for a route's provider credentials, writing records for `host` under the
/// fixed `_acme-challenge.` prefix.
pub fn get_dns_services(config: ProviderCredentail, client: reqwest::Client, host: Host) -> (d: Cloudflare)
    ensures
        d.client == client,
        d.host == host,
        config == ProviderCredentail::Cloudflare(d.config),
        d.challenge_prefix@ == "_acme-challenge."@,
{
    match config {
        ProviderCredentail::Cloudflare(config) => Cloudflare {
            client,
            host,
            config: CloudflareProvider { zone_id: config.zone_id, api_token: config.api_token },
            challenge_prefix: ChallengePrefix::from(default_challenge_prefix()),
        },
    }
}

/// A character that `http::HeaderValue::from_str` accepts: a tab, or any character from space
/// upwards except DEL.
pub open spec fn header_value_char_ok(c: char) -> bool {
    c == '\t' || (32 <= (c as int) && (c as int) != 127)
}

pub open spec fn header_value_ok(s: Seq<char>) -> bool {
    forall|i: int| 0 <= i < s.len() ==> header_value_char_ok(#[trigger] s[i])
}

/// Calls `http::HeaderValue::from_str`. It succeeds exactly when every byte of the UTF-8 text is
/// a tab or lies in 32..=255 other than 127, which is the character condition above; its
/// error displays as "failed to parse header value".
#[verifier::external_body]
fn check_header_value(value: &str) -> (r: Result<(), String>)
    ensures
        r is Ok <==> header_value_ok(value@),
        r matches Err(m) ==> m@ == "failed to parse header value"@,
{
    match http::HeaderValue::from_str(value) {
        Ok(_) => Ok(()),
        Err(e) => Err(e.to_string()),
    }
}

/// The body of a create or update request for a TXT record.
#[derive(Debug)]
pub struct DnsRecordBody {
    pub record_type: String,
    pub name: String,
    pub content: String,
    pub ttl: u32,
    pub proxied: bool,
    pub comment: String,
}

/// The status line of an HTTP response: its code and its text as the client displays it.
#[derive(Debug)]
pub struct HttpStatus {
    pub code: u16,
    pub text: String,
}

/// Why a response body could not be turned into a value.
#[derive(Debug)]
pub enum ResponseBodyError {
    /// The body could not be read as text.
    Read(String),
    /// The text is not the expected JSON.
    Json(String),
}

/// The envelope of every Cloudflare API response.
#[derive(Debug)]
pub struct CloudflareResponse<T> {
    pub errors: Vec<CloudflareMessage>,
    pub messages: Vec<CloudflareMessage>,
    pub success: bool,
    pub result: T,
}

/// A message in a Cloudflare API response.
#[derive(Debug)]
pub struct CloudflareMessage {
    pub code: u32,
    pub message: String,
    pub documentation_url: Option<String>,
}

/// A DNS record as Cloudflare describes it; the two times are Unix seconds.
#[derive(Debug)]
pub struct DnsRecord {
    pub id: String,
    pub name: String,
    pub record_type: String,
    pub content: String,
    pub ttl: u32,
    pub proxied: bool,
    pub comment: Option<String>,
    pub created_on: i64,
    pub modified_on: i64,
}

/// The next request of an upsert: create a record, or update the one that exists.
#[derive(Debug)]
pub enum UpsertRequest {
    Create,
    Update { record_id: RecordId },
}

/// Whether a status code is a success (2xx).
pub open spec fn status_is_success(code: u16) -> bool {
    200 <= code && code <= 299
}

/// The error that a response body error turns into.
pub open spec fn body_error_message(e: ResponseBodyError) -> Seq<char> {
    match e {
        ResponseBodyError::Read(m) => "Parse "@ + m@,
        ResponseBodyError::Json(m) => "serde_json "@ + m@,
    }
}

fn body_error(e: ResponseBodyError) -> (r: Error)
    ensures
        r matches Error::Dns(m) && m@ == body_error_message(e),
{
    match e {
        ResponseBodyError::Read(m) => Error::Dns(concat_str("Parse ", m.as_str())),
        ResponseBodyError::Json(m) => Error::Dns(concat_str("serde_json ", m.as_str())),
    }
}

fn status_error(status: &HttpStatus) -> (r: Error)
    ensures
        r matches Error::Dns(m) && m@ == "Status "@ + status.text@,
{
    Error::Dns(concat_str("Status ", status.text.as_str()))
}

/// The record id in a listing of TXT records: the first record's, if any. A non-2xx status
/// or an unreadable body is an error.
pub fn record_id_from_listing(
    status: &HttpStatus,
    body: Result<CloudflareResponse<Vec<DnsRecord>>, ResponseBodyError>,
) -> (res: Result<Option<RecordId>, Error>)
    ensures
        !status_is_success(status.code) ==> (res matches Err(Error::Dns(m)) && m@ == "Status "@
            + status.text@),
        status_is_success(status.code) ==> match body {
            Err(e) => res matches Err(Error::Dns(m)) && m@ == body_error_message(e),
            Ok(r) => if r.result@.len() == 0 {
                res matches Ok(None)
            } else {
                res matches Ok(Some(id)) && id@ == r.result@[0].id@
            },
        },
{
    if !(200 <= status.code && status.code <= 299) {
        return Err(status_error(status));
    }
    match body {
        Err(e) => Err(body_error(e)),
        Ok(r) => if r.result.len() == 0 {
            Ok(None)
        } else {
            Ok(Some(RecordId::from(r.result[0].id.clone())))
        },
    }
}

/// An upsert updates the record that exists, or creates one when there is none.
pub fn upsert_request(record_id: Option<RecordId>) -> (r: UpsertRequest)
    ensures
        match record_id {
            Some(id) => r == UpsertRequest::Update { record_id: id },
            None => r is Create,
        },
{
    match record_id {
        Some(record_id) => UpsertRequest::Update { record_id },
        None => UpsertRequest::Create,
    }
}

/// The record a create or update response describes.
fn record_of(r: CloudflareResponse<DnsRecord>) -> (rec: Record)
    ensures
        rec.provider_id@ == r.result.id@,
        rec.name == r.result.name,
        rec.value == r.result.content,
{
    Record {
        provider_id: RecordId::from(r.result.id),
        name: r.result.name,
        value: r.result.content,
    }
}

/// The record a create response describes; its status is not looked at.
pub fn record_from_created(body: Result<CloudflareResponse<DnsRecord>, ResponseBodyError>) -> (res:
    Result<Record, Error>)
    ensures
        match body {
            Err(e) => res matches Err(Error::Dns(m)) && m@ == body_error_message(e),
            Ok(r) => res matches Ok(rec) && rec.provider_id@ == r.result.id@ && rec.name
                == r.result.name && rec.value == r.result.content,
        },
{
    match body {
        Err(e) => Err(body_error(e)),
        Ok(r) => Ok(record_of(r)),
    }
}

/// The record an update response describes; a non-2xx status is an error.
pub fn record_from_updated(
    status: &HttpStatus,
    body: Result<CloudflareResponse<DnsRecord>, ResponseBodyError>,
) -> (res: Result<Record, Error>)
    ensures
        !status_is_success(status.code) ==> (res matches Err(Error::Dns(m)) && m@ == "Status "@
            + status.text@),
        status_is_success(status.code) ==> match body {
            Err(e) => res matches Err(Error::Dns(m)) && m@ == body_error_message(e),
            Ok(r) => res matches Ok(rec) && rec.provider_id@ == r.result.id@ && rec.name
                == r.result.name && rec.value == r.result.content,
        },
{
    if !(200 <= status.code && status.code <= 299) {
        return Err(status_error(status));
    }
    record_from_created(body)
}

impl Cloudflare {
    /// The name of the host's challenge record: the prefix followed by the host.
    pub fn challenge_name(&self) -> (r: String)
        ensures
            r@ == self.challenge_prefix@ + self.host@,
    {
        concat_str(self.challenge_prefix.as_str(), self.host.as_str())
    }

    /// The URL that lists the zone's TXT records named like the challenge record.
    pub fn records_query_url(&self) -> (r: String)
        ensures
            r@ == API_BASE@ + "/zones/"@ + self.config.zone_id@ + "/dns_records?type=TXT&name="@
                + self.challenge_prefix@ + self.host@,
    {
        let a = concat3(API_BASE, "/zones/", self.config.zone_id.as_str());
        let b = concat3(a.as_str(), "/dns_records?type=TXT&name=", self.challenge_prefix.as_str());
        concat_str(b.as_str(), self.host.as_str())
    }

    /// The URL that records are created at.
    pub fn records_url(&self) -> (r: String)
        ensures
            r@ == API_BASE@ + "/zones/"@ + self.config.zone_id@ + "/dns_records"@,
    {
        let a = concat3(API_BASE, "/zones/", self.config.zone_id.as_str());
        concat_str(a.as_str(), "/dns_records")
    }

    /// The URL of one record.
    pub fn record_url(&self, record_id: &RecordId) -> (r: String)
        ensures
            r@ == API_BASE@ + "/zones/"@ + self.config.zone_id@ + "/dns_records/"@ + record_id@,
    {
        let a = concat3(API_BASE, "/zones/", self.config.zone_id.as_str());
        concat3(a.as_str(), "/dns_records/", record_id.as_str())
    }

    /// The headers of every API request: the bearer token and the JSON content type. A token
    /// that cannot stand in a header value is an error.
    pub fn request_headers(&self) -> (res: Result<Vec<(String, String)>, Error>)
        ensures
            header_value_ok("Bearer "@ + self.config.api_token@) ==> (res matches Ok(h) && h@.len()
                == 2 && h@[0].0@ == "Authorization"@ && h@[0].1@ == "Bearer "@
                + self.config.api_token@ && h@[1].0@ == "Content-Type"@ && h@[1].1@
                == "application/json"@),
            !header_value_ok("Bearer "@ + self.config.api_token@) ==> (res matches Err(Error::Dns(m))
                && m@ == "failed to parse header value"@),
    {
        let auth = concat_str("Bearer ", self.config.api_token.as_str());
        match check_header_value(auth.as_str()) {
            Err(m) => return Err(Error::Dns(m)),
            Ok(()) => {},
        }
        let content_type = "application/json";
        let mut h: Vec<(String, String)> = Vec::new();
        h.push(("Authorization".to_owned(), auth));
        h.push(("Content-Type".to_owned(), content_type.to_owned()));
        Ok(h)
    }

    /// The body that creates or updates the challenge record with `dns_value`.
    pub fn record_body(&self, dns_value: String) -> (b: DnsRecordBody)
        ensures
            b.record_type@ == "TXT"@,
            b.name@ == self.challenge_prefix@ + self.host@,
            b.content == dns_value,
            b.ttl == 1,
            !b.proxied,
            b.comment@ == RECORD_COMMENT@,
    {
        DnsRecordBody {
            record_type: "TXT".to_owned(),
            name: self.challenge_name(),
            content: dns_value,
            ttl: 1,
            proxied: false,
            comment: RECORD_COMMENT.to_owned(),
        }
    }
}

} // verus!
