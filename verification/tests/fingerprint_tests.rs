use proteus::ai::fingerprint::{BasicFingerprintProvider, FingerprintProvider, NetworkFingerprint};

#[test]
fn test_fingerprint_creation() {
    let fp = NetworkFingerprint::new(
        "Home WiFi",
        "WiFi",
        "192.168.1.1",
        vec!["8.8.8.8".into(), "1.1.1.1".into()],
        "192.168.1.0/24",
    );
    assert_eq!(fp.label, "Home WiFi");
    assert_eq!(fp.transport, "WiFi");
    assert_eq!(fp.gateway_ip, "192.168.1.1");
    assert_eq!(fp.dns_servers.len(), 2);
    assert_eq!(fp.local_subnet, "192.168.1.0/24");
    assert!(!fp.hash.is_empty());
}

#[test]
fn test_same_network_same_hash() {
    let a = NetworkFingerprint::new("Home", "WiFi", "192.168.1.1", vec!["8.8.8.8".into()], "192.168.1.0/24");
    let b = NetworkFingerprint::new("Home (alias)", "WiFi", "192.168.1.1", vec!["8.8.8.8".into()], "192.168.1.0/24");
    assert_eq!(a.hash, b.hash);
}

#[test]
fn test_different_networks_different_hash() {
    let a = NetworkFingerprint::new("Home", "WiFi", "192.168.1.1", vec![], "192.168.1.0/24");
    let b = NetworkFingerprint::new("Mobile", "Cellular", "10.0.0.1", vec![], "10.0.0.0/8");
    assert_ne!(a.hash, b.hash);
}

#[test]
fn test_basic_provider() {
    let provider = BasicFingerprintProvider::new("Test Net", "Ethernet", "10.0.0.1", vec!["10.0.0.53".into()], "10.0.0.0/24");
    assert_eq!(provider.network_label(), "Test Net");
    let fp = provider.current_fingerprint().unwrap();
    assert_eq!(fp.gateway_ip, "10.0.0.1");
}

#[test]
fn test_fingerprint_display() {
    let fp = NetworkFingerprint::new("Office", "Ethernet", "172.16.0.1", vec![], "172.16.0.0/16");
    let display = fp.to_string();
    assert!(display.contains("Office"));
    assert!(display.contains("Ethernet"));
    assert!(display.contains("172.16.0.1"));
}

#[test]
fn hash_is_sha256_of_the_network_text() {
    // SHA-256 of "WiFi|192.168.1.1|8.8.8.8,|192.168.1.0/24", as lowercase hex
    let fp = NetworkFingerprint::new("x", "WiFi", "192.168.1.1", vec!["8.8.8.8".into()], "192.168.1.0/24");
    assert_eq!(fp.hash, "c29ee328b3e6d5fb053bc151380fc9ebedbda64c099b6abba84e50851d8159db");
    assert_eq!(fp.to_string(), "NetworkFingerprint(x | WiFi | gateway: 192.168.1.1 | subnet: 192.168.1.0/24)");
    assert_eq!(fp.hash.len(), 64);
    assert!(fp.hash.chars().all(|c| c.is_ascii_hexdigit() && !c.is_ascii_uppercase()));
    let other = NetworkFingerprint::new("x", "WiFi", "192.168.1.1", vec!["8.8.4.4".into()], "192.168.1.0/24");
    assert_ne!(fp.hash, other.hash);
}
