use reverse_proxy::proxy_core::handlers::certs::{certificate_paths, tls_files_of};
use reverse_proxy::proxy_core::handlers::filesystem::safe_path;
use reverse_proxy::proxy_core::models::certs::{CertDir, CertificateConfig, CertificateType};
use reverse_proxy::proxy_core::models::routes::Host;
use reverse_proxy::Error;

fn joined(base: &str, file: &str) -> String {
    match safe_path(base, file) {
        Ok(p) => p.as_str().to_string(),
        Err(e) => panic!("unexpected error {:?}", e),
    }
}

fn is_traversal_error(base: &str, file: &str) -> bool {
    match safe_path(base, file) {
        Err(Error::FileSystem(m)) => m == "Path traverses above the base directory",
        _ => false,
    }
}

#[test]
fn safe_path_joins_plain_file() {
    assert_eq!(joined(".certs", "app.example.com.pem"), ".certs/app.example.com.pem");
}

#[test]
fn safe_path_keeps_base_trailing_separator() {
    assert_eq!(joined(".certs/", "a.key"), ".certs/a.key");
}

#[test]
fn safe_path_reads_absolute_as_relative() {
    assert_eq!(joined("/var/lib/proxy/certs", "/etc/passwd"), "/var/lib/proxy/certs/etc/passwd");
}

#[test]
fn safe_path_leading_separator_changes_nothing() {
    assert_eq!(joined("base", "/x/y"), joined("base", "x/y"));
}

#[test]
fn safe_path_resolves_parent_inside_base() {
    assert_eq!(joined("base", "a/../b"), "base/b");
    assert_eq!(joined("base", "a/./b//c/"), "base/a/b/c");
    assert_eq!(joined("base", "./a"), "base/a");
}

#[test]
fn safe_path_component_then_parent_changes_nothing() {
    for f in ["a/b", "", "/x", "c.pem"] {
        assert_eq!(joined("base", &format!("x/../{}", f)), joined("base", f));
    }
    assert!(is_traversal_error("base", "x/../../y"));
    assert!(is_traversal_error("base", "../y"));
}

#[test]
fn safe_path_refuses_traversal() {
    assert!(is_traversal_error("base", "../etc/passwd"));
    assert!(is_traversal_error("base", "a/../../b"));
    assert!(is_traversal_error("base", ".."));
}

#[test]
fn safe_path_empty_file_path_gives_directory() {
    assert_eq!(joined("base", ""), "base/");
    assert_eq!(joined("", "a/b"), "a/b");
}

#[test]
fn safe_path_dots_in_names_are_plain() {
    assert_eq!(joined("d", "...key"), "d/...key");
    assert_eq!(joined("d", ".hidden"), "d/.hidden");
}

#[test]
fn certificate_paths_of_host() {
    let host = Host::from("app.example.com".to_string());
    let dir = CertDir::from(".certs/".to_string());
    let (key, cert) = certificate_paths(&host, &dir).unwrap();
    assert_eq!(key.as_str(), ".certs/app.example.com.key");
    assert_eq!(cert.as_str(), ".certs/app.example.com.pem");
}

#[test]
fn certificate_paths_refuse_escaping_host() {
    let host = Host::from("../../etc/x".to_string());
    let dir = CertDir::from("/certs".to_string());
    assert!(matches!(certificate_paths(&host, &dir), Err(Error::FileSystem(_))));
}

#[test]
fn tls_files_only_for_tls_routes() {
    let mut config = CertificateConfig {
        host: Host::from("h.test".to_string()),
        cert_dir: CertDir::from("c".to_string()),
        cert_type: CertificateType::NoTls,
        provider_config: None,
    };
    assert!(matches!(tls_files_of(&config), Ok(None)));
    config.cert_type = CertificateType::Acme;
    let (k, c) = tls_files_of(&config).unwrap().unwrap();
    assert_eq!(k.as_str(), "c/h.test.key");
    assert_eq!(c.as_str(), "c/h.test.pem");
}
