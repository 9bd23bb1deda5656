use reverse_proxy::proxy_core::models::dns::{
    default_challenge_prefix, ApiToken, CFZoneId, CloudflareProvider, ProviderCredentail, RecordId,
};
use reverse_proxy::proxy_core::models::routes::Host;
use reverse_proxy::services::dns::cloudflare::{
    get_dns_services, record_from_created, record_from_updated, record_id_from_listing,
    upsert_request, Cloudflare, CloudflareResponse, DnsRecord, HttpStatus, ResponseBodyError,
    UpsertRequest,
};
use reverse_proxy::Error;

fn service(token: &str) -> Cloudflare {
    get_dns_services(
        ProviderCredentail::Cloudflare(CloudflareProvider {
            api_token: ApiToken::from(token.to_string()),
            zone_id: CFZoneId::from("zone123".to_string()),
        }),
        reqwest::Client::new(),
        Host::from("blog.example.com".to_string()),
    )
}

fn record(id: &str) -> DnsRecord {
    DnsRecord {
        id: id.to_string(),
        name: "_acme-challenge.blog.example.com".to_string(),
        record_type: "TXT".to_string(),
        content: "value".to_string(),
        ttl: 1,
        proxied: false,
        comment: None,
        created_on: 0,
        modified_on: 0,
    }
}

fn ok() -> HttpStatus {
    HttpStatus { code: 200, text: "200 OK".to_string() }
}

fn envelope<T>(result: T) -> CloudflareResponse<T> {
    CloudflareResponse { errors: vec![], messages: vec![], success: true, result }
}

#[test]
fn challenge_prefix_is_fixed() {
    assert_eq!(default_challenge_prefix(), "_acme-challenge.");
    let s = service("t");
    assert_eq!(s.challenge_prefix.as_str(), "_acme-challenge.");
    assert_eq!(s.challenge_name(), "_acme-challenge.blog.example.com");
}

#[test]
fn urls() {
    let s = service("t");
    assert_eq!(
        s.records_query_url(),
        "https://api.cloudflare.com/client/v4/zones/zone123/dns_records?type=TXT&name=_acme-challenge.blog.example.com"
    );
    assert_eq!(s.records_url(), "https://api.cloudflare.com/client/v4/zones/zone123/dns_records");
    assert_eq!(
        s.record_url(&RecordId::from("r9".to_string())),
        "https://api.cloudflare.com/client/v4/zones/zone123/dns_records/r9"
    );
}

#[test]
fn headers_carry_token() {
    let h = service("abc").request_headers().unwrap();
    assert_eq!(h.len(), 2);
    assert_eq!(h[0], ("Authorization".to_string(), "Bearer abc".to_string()));
    assert_eq!(h[1], ("Content-Type".to_string(), "application/json".to_string()));
}

#[test]
fn token_that_breaks_a_header_is_refused() {
    match service("abc\ndef").request_headers() {
        Err(Error::Dns(m)) => assert_eq!(m, "failed to parse header value"),
        other => panic!("unexpected {:?}", other),
    }
    assert!(service("tab\tand ünïcode").request_headers().is_ok());
}

#[test]
fn record_body() {
    let b = service("t").record_body("dns-value".to_string());
    assert_eq!(b.record_type, "TXT");
    assert_eq!(b.name, "_acme-challenge.blog.example.com");
    assert_eq!(b.content, "dns-value");
    assert_eq!(b.ttl, 1);
    assert!(!b.proxied);
    assert_eq!(b.comment, "automated with reverse-proxy. don't touch :pray:");
}

#[test]
fn listing_gives_first_record_id() {
    let id = record_id_from_listing(&ok(), Ok(envelope(vec![record("first"), record("second")]))).unwrap();
    assert_eq!(id.unwrap().as_str(), "first");
    assert!(record_id_from_listing(&ok(), Ok(envelope(vec![]))).unwrap().is_none());
}

#[test]
fn listing_errors() {
    let status = HttpStatus { code: 403, text: "403 Forbidden".to_string() };
    match record_id_from_listing(&status, Ok(envelope(vec![]))) {
        Err(Error::Dns(m)) => assert_eq!(m, "Status 403 Forbidden"),
        other => panic!("unexpected {:?}", other),
    }
    match record_id_from_listing(&ok(), Err(ResponseBodyError::Json("expected value".to_string()))) {
        Err(Error::Dns(m)) => assert_eq!(m, "serde_json expected value"),
        other => panic!("unexpected {:?}", other),
    }
    match record_id_from_listing(&ok(), Err(ResponseBodyError::Read("eof".to_string()))) {
        Err(Error::Dns(m)) => assert_eq!(m, "Parse eof"),
        other => panic!("unexpected {:?}", other),
    }
}

#[test]
fn upsert_updates_existing_record() {
    assert!(matches!(upsert_request(None), UpsertRequest::Create));
    match upsert_request(Some(RecordId::from("r1".to_string()))) {
        UpsertRequest::Update { record_id } => assert_eq!(record_id.as_str(), "r1"),
        other => panic!("unexpected {:?}", other),
    }
}

#[test]
fn records_from_responses() {
    let r = record_from_created(Ok(envelope(record("new")))).unwrap();
    assert_eq!(r.provider_id.as_str(), "new");
    assert_eq!(r.name, "_acme-challenge.blog.example.com");
    assert_eq!(r.value, "value");
    let bad = HttpStatus { code: 500, text: "500 Internal Server Error".to_string() };
    assert!(matches!(record_from_updated(&bad, Ok(envelope(record("x")))), Err(Error::Dns(_))));
    assert_eq!(record_from_updated(&ok(), Ok(envelope(record("u")))).unwrap().provider_id.as_str(), "u");
}
