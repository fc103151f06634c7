use clipboard_syncer::utils::ip::{address_or_loopback, address_or_unknown, check_addr, local_ip};

#[test]
fn test_check_addr() {
    assert!(check_addr("127.0.0.1:8080"));

    assert!(!check_addr("127.0.1:8080"));

    assert!(!check_addr("127.0.0.1"));
}

#[test]
fn test_check_addr_edges() {
    assert!(check_addr("1.2.3.4:5"));
    assert!(check_addr("192.168.100.200:65535"));
    assert!(check_addr("999.999.999.999:99999"));

    assert!(!check_addr(""));
    assert!(!check_addr(":8080"));
    assert!(!check_addr("1.2.3.4:"));
    assert!(!check_addr("1.2.3.4"));
    assert!(!check_addr("1234.1.1.1:1"));
    assert!(!check_addr("1.2.3.4:123456"));
    assert!(!check_addr("a.b.c.d:e"));
    assert!(!check_addr("1.2.3.4.5:80"));
    assert!(!check_addr("1.2.3.4:80x"));
    assert!(!check_addr(" 1.2.3.4:80"));
}

#[test]
fn test_address_fallbacks() {
    assert_eq!(address_or_loopback(None), "127.0.0.1");
    assert_eq!(address_or_unknown(None), "unknown");
    assert_eq!(
        address_or_loopback(Some("10.0.0.2".to_string())),
        "10.0.0.2"
    );
    assert_eq!(address_or_unknown(Some("10.0.0.2".to_string())), "10.0.0.2");
}

#[test]
fn test_local_ip_is_nonempty() {
    // Whatever the machine reports, the fallback guarantees an address.
    assert!(!local_ip().is_empty());
}
