use reverse_proxy::proxy_core::handlers::renewal::{
    acme_configs, authorization_needs_ready, authorization_needs_record, missing_dns_challenge,
    renewal_step, AcmeAuthorizationStatus, AcmeOrderStatus, PendingOrders, RenewalAction,
    RenewalEvent, RenewalState,
};
use reverse_proxy::proxy_core::models::certs::{CertDir, CertificateConfig, CertificateType, OrderOutcome};
use reverse_proxy::proxy_core::models::dns::{ApiToken, CFZoneId, CloudflareProvider, ProviderCredentail};
use reverse_proxy::proxy_core::models::host_map::HostMap;
use reverse_proxy::proxy_core::models::routes::Host;
use reverse_proxy::Error;

fn provider() -> ProviderCredentail {
    ProviderCredentail::Cloudflare(CloudflareProvider {
        api_token: ApiToken::from("token".to_string()),
        zone_id: CFZoneId::from("zone".to_string()),
    })
}

fn config(with_provider: bool) -> CertificateConfig {
    CertificateConfig {
        host: Host::from("blog.example.com".to_string()),
        cert_dir: CertDir::from("/certs".to_string()),
        cert_type: CertificateType::Acme,
        provider_config: if with_provider { Some(provider()) } else { None },
    }
}

/// Runs the check stage and returns the order fetch action and the state that awaits the order.
fn check(c: &CertificateConfig, pending: &mut PendingOrders, expires_soon: Option<bool>) -> (RenewalState, RenewalAction) {
    let (s, a) = renewal_step(c, pending, RenewalState::Start, RenewalEvent::Begin);
    assert!(matches!(a, RenewalAction::CheckCertificate));
    renewal_step(c, pending, s, RenewalEvent::CertificateChecked { expires_soon })
}

#[test]
fn host_without_provider_is_skipped() {
    let mut pending: PendingOrders = HostMap::new();
    let (s, a) = renewal_step(&config(false), &mut pending, RenewalState::Start, RenewalEvent::Begin);
    assert!(matches!(s, RenewalState::Finished));
    assert!(matches!(a, RenewalAction::Skip));
}

#[test]
fn valid_certificate_is_kept() {
    let mut pending: PendingOrders = HostMap::new();
    let (_, a) = check(&config(true), &mut pending, Some(false));
    assert!(matches!(a, RenewalAction::Skip));
}

#[test]
fn two_stage_issuance() {
    let c = config(true);
    let mut pending: PendingOrders = HostMap::new();
    // tick N: a missing certificate starts a new order
    let (s, a) = check(&c, &mut pending, None);
    assert!(matches!(a, RenewalAction::FetchOrder { resume_url: None }));
    let (s, a) = renewal_step(&c, &mut pending, s, RenewalEvent::OrderFetched {
        status: AcmeOrderStatus::Pending,
        url: "https://acme/order/1".to_string(),
    });
    assert!(matches!(a, RenewalAction::WriteChallengeRecords { .. }));
    let (s, a) = renewal_step(&c, &mut pending, s, RenewalEvent::RecordsWritten);
    assert!(matches!(s, RenewalState::Finished));
    assert!(matches!(a, RenewalAction::Done { outcome: OrderOutcome::Waiting }));
    assert_eq!(pending.get("blog.example.com").map(|u| u.as_str()), Some("https://acme/order/1"));
    // tick N+1: the held order is resumed and its challenges marked ready
    let (s, a) = check(&c, &mut pending, Some(true));
    match &a {
        RenewalAction::FetchOrder { resume_url: Some(u) } => assert_eq!(u, "https://acme/order/1"),
        other => panic!("unexpected {:?}", other),
    }
    let (s, a) = renewal_step(&c, &mut pending, s, RenewalEvent::OrderFetched {
        status: AcmeOrderStatus::Pending,
        url: "https://acme/order/1".to_string(),
    });
    assert!(matches!(a, RenewalAction::MarkChallengesReady));
    let (s, a) = renewal_step(&c, &mut pending, s, RenewalEvent::ChallengesReady);
    assert!(matches!(a, RenewalAction::PollOrder));
    let (s, a) = renewal_step(&c, &mut pending, s, RenewalEvent::OrderPolled { status: AcmeOrderStatus::Ready });
    assert!(matches!(a, RenewalAction::Finalize));
    let (s, a) = renewal_step(&c, &mut pending, s, RenewalEvent::CertificateIssued {
        key_pem: "KEY".to_string(),
        cert_pem: "CERT".to_string(),
    });
    match &a {
        RenewalAction::StoreCertificate { writes, key_pem, cert_pem } => {
            assert_eq!(writes.len(), 2);
            assert_eq!(writes[0].path.as_str(), "/certs/blog.example.com.key");
            assert_eq!(writes[0].content, "KEY");
            assert_eq!(writes[1].path.as_str(), "/certs/blog.example.com.pem");
            assert_eq!(writes[1].content, "CERT");
            assert_eq!(key_pem, "KEY");
            assert_eq!(cert_pem, "CERT");
        },
        other => panic!("unexpected {:?}", other),
    }
    let (s, a) = renewal_step(&c, &mut pending, s, RenewalEvent::Stored);
    assert!(matches!(s, RenewalState::Finished));
    assert!(matches!(a, RenewalAction::Done { outcome: OrderOutcome::Issued }));
    assert!(!pending.contains("blog.example.com"));
}

#[test]
fn ready_order_is_finished_right_away() {
    let c = config(true);
    let mut pending: PendingOrders = HostMap::new();
    let (s, _) = check(&c, &mut pending, Some(true));
    let (_, a) = renewal_step(&c, &mut pending, s, RenewalEvent::OrderFetched {
        status: AcmeOrderStatus::Ready,
        url: "u".to_string(),
    });
    assert!(matches!(a, RenewalAction::PollOrder));
}

#[test]
fn dead_order_is_dropped() {
    let c = config(true);
    let mut pending: PendingOrders = HostMap::new();
    pending.insert(Host::from("blog.example.com".to_string()), "old".to_string());
    for status in [AcmeOrderStatus::Valid, AcmeOrderStatus::Processing, AcmeOrderStatus::Invalid] {
        pending.insert(Host::from("blog.example.com".to_string()), "old".to_string());
        let (s, _) = check(&c, &mut pending, None);
        let (_, a) = renewal_step(&c, &mut pending, s, RenewalEvent::OrderFetched { status, url: "u".to_string() });
        assert!(matches!(a, RenewalAction::Done { outcome: OrderOutcome::Dead }));
        assert!(!pending.contains("blog.example.com"));
    }
}

#[test]
fn order_not_ready_is_an_error() {
    let c = config(true);
    let mut pending: PendingOrders = HostMap::new();
    let (_, a) = renewal_step(&c, &mut pending, RenewalState::Finishing, RenewalEvent::OrderPolled {
        status: AcmeOrderStatus::Invalid,
    });
    match a {
        RenewalAction::Abort { error: Error::Certificate(m) } => assert_eq!(m, "Order is not ready: Invalid"),
        other => panic!("unexpected {:?}", other),
    }
}

#[test]
fn failure_keeps_pending_orders() {
    let c = config(true);
    let mut pending: PendingOrders = HostMap::new();
    pending.insert(Host::from("blog.example.com".to_string()), "held".to_string());
    let (s, a) = renewal_step(&c, &mut pending, RenewalState::MarkingReady, RenewalEvent::Failed {
        error: Error::Certificate("set challenge ready: boom".to_string()),
    });
    assert!(matches!(s, RenewalState::Finished));
    match a {
        RenewalAction::Abort { error: Error::Certificate(m) } => assert_eq!(m, "set challenge ready: boom"),
        other => panic!("unexpected {:?}", other),
    }
    assert_eq!(pending.get("blog.example.com").map(|u| u.as_str()), Some("held"));
}

#[test]
fn unexpected_event_aborts() {
    let c = config(true);
    let mut pending: PendingOrders = HostMap::new();
    let (_, a) = renewal_step(&c, &mut pending, RenewalState::Start, RenewalEvent::Stored);
    assert!(matches!(a, RenewalAction::Abort { error: Error::Unknown }));
}

#[test]
fn authorization_decisions() {
    assert!(!authorization_needs_record(AcmeAuthorizationStatus::Valid));
    assert!(authorization_needs_record(AcmeAuthorizationStatus::Pending));
    assert!(authorization_needs_record(AcmeAuthorizationStatus::Expired));
    assert!(authorization_needs_ready(AcmeAuthorizationStatus::Pending));
    assert!(!authorization_needs_ready(AcmeAuthorizationStatus::Valid));
    assert!(!authorization_needs_ready(AcmeAuthorizationStatus::Revoked));
    assert!(matches!(missing_dns_challenge(), Error::Certificate(m) if m == "no dns01 challenge found"));
}

#[test]
fn only_acme_routes_are_renewed() {
    let mut a = config(true);
    a.host = Host::from("a".to_string());
    let mut b = config(true);
    b.host = Host::from("b".to_string());
    b.cert_type = CertificateType::SelfSigned;
    let mut c = config(false);
    c.host = Host::from("c".to_string());
    let picked = acme_configs(&vec![a, b, c]);
    assert_eq!(picked.len(), 2);
    assert_eq!(picked[0].host.as_str(), "a");
    assert_eq!(picked[1].host.as_str(), "c");
}
