use reverse_proxy::config::{load_env, port_from_env, Acme, Config, ConfigTomlFile};
use reverse_proxy::proxy_core::models::certs::{CertificateType, Email};
use reverse_proxy::proxy_core::models::routes::{Host, Route, Upstream};
use reverse_proxy::text::parse_u16;
use reverse_proxy::Error;

fn file() -> ConfigTomlFile {
    ConfigTomlFile {
        acme: Acme { email: Email::from("you@example.com".to_string()) },
        routes: vec![Route {
            host: Host::from("app.example.com".to_string()),
            upstream: Upstream::from("host.docker.internal:3000".to_string()),
            cert_type: CertificateType::default(),
            dns_provider: None,
        }],
    }
}

#[test]
fn parse_u16_accepts_decimal() {
    assert_eq!(parse_u16("8080"), Some(8080));
    assert_eq!(parse_u16("+80"), Some(80));
    assert_eq!(parse_u16("0080"), Some(80));
    assert_eq!(parse_u16("65535"), Some(65535));
    assert_eq!(parse_u16("0"), Some(0));
}

#[test]
fn parse_u16_rejects_like_std() {
    for s in ["", "+", "-1", "65536", "99999999999", " 80", "80 ", "8a", "++1", "٣"] {
        assert_eq!(parse_u16(s), None, "{}", s);
        assert!(s.parse::<u16>().is_err());
    }
}

#[test]
fn parse_u16_matches_std_on_small_numbers() {
    for n in 0u32..70000 {
        let s = n.to_string();
        assert_eq!(parse_u16(&s), s.parse::<u16>().ok());
    }
}

#[test]
fn port_falls_back_to_default() {
    assert_eq!(port_from_env(&None, 80), 80);
    assert_eq!(port_from_env(&Some("not-a-port".to_string()), 443), 443);
    assert_eq!(port_from_env(&Some("8443".to_string()), 443), 8443);
}

#[test]
fn load_env_names_missing_variable() {
    match load_env("CONFIG_PATH", None) {
        Err(Error::Env(k)) => assert_eq!(k, "CONFIG_PATH"),
        other => panic!("unexpected {:?}", other),
    }
    assert_eq!(load_env("X", Some("v".to_string())).unwrap(), "v");
}

#[test]
fn config_defaults() {
    let c = Config::init(file(), None, None, None);
    assert_eq!(c.cert_dir.as_str(), ".certs/");
    assert_eq!(c.cert_account_path.as_str(), ".certs//acme_account");
    assert_eq!(c.http_port.get(), 80);
    assert_eq!(c.https_port.get(), 443);
    assert_eq!(c.input_address.as_str(), "0.0.0.0");
    assert_eq!(c.task_interval.seconds(), 3600);
    assert_eq!(c.email.as_str(), "you@example.com");
    assert_eq!(c.routes.len(), 1);
    assert_eq!(c.routes[0].cert_type, CertificateType::NoTls);
}

#[test]
fn config_from_environment() {
    let c = Config::init(
        file(),
        Some("/var/lib/proxy/certs".to_string()),
        Some("8080".to_string()),
        Some("8443".to_string()),
    );
    assert_eq!(c.cert_dir.as_str(), "/var/lib/proxy/certs");
    assert_eq!(c.cert_account_path.as_str(), "/var/lib/proxy/certs/acme_account");
    assert_eq!(c.http_port.get(), 8080);
    assert_eq!(c.https_port.get(), 8443);
}
