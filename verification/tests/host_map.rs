use reverse_proxy::proxy_core::models::host_map::HostMap;
use reverse_proxy::proxy_core::models::routes::Host;

fn h(s: &str) -> Host {
    Host::from(s.to_string())
}

#[test]
fn insert_then_get_reads_back() {
    let mut m: HostMap<u32> = HostMap::new();
    m.insert(h("a"), 1);
    m.insert(h("b"), 2);
    assert_eq!(m.get("a"), Some(&1));
    assert_eq!(m.get("b"), Some(&2));
    assert_eq!(m.get("c"), None);
    assert_eq!(m.len(), 2);
}

#[test]
fn insert_replaces_only_its_host() {
    let mut m: HostMap<u32> = HostMap::new();
    m.insert(h("a"), 1);
    m.insert(h("b"), 2);
    m.insert(h("a"), 3);
    assert_eq!(m.get("a"), Some(&3));
    assert_eq!(m.get("b"), Some(&2));
    assert_eq!(m.len(), 2);
}

#[test]
fn remove_forgets_only_its_host() {
    let mut m: HostMap<u32> = HostMap::new();
    m.insert(h("a"), 1);
    m.insert(h("b"), 2);
    m.remove("a");
    m.remove("zzz");
    assert!(!m.contains("a"));
    assert!(m.contains("b"));
    assert_eq!(m.len(), 1);
}

#[test]
fn swapped_copy_leaves_source_untouched() {
    let mut m: HostMap<u32> = HostMap::new();
    m.insert(h("a"), 1);
    let mut next = m.duplicate();
    next.insert(h("a"), 7);
    assert_eq!(m.get("a"), Some(&1));
    assert_eq!(next.get("a"), Some(&7));
}
