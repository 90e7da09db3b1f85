use wireguard_proxy::exit_node::{interface_address, peer_allowed_ips, AddressErrorKind};

#[test]
fn interface_address_reads_one_network_per_family() {
    let a = interface_address("10.8.0.2/24").unwrap();
    assert_eq!(a.to_string(), "10.8.0.2/24");
    let dual = interface_address("10.8.0.2/24, fd00::2/64").unwrap();
    assert!(dual.is_dual());
}

#[test]
fn interface_address_rejects_bad_text() {
    let e = interface_address("not an address").unwrap_err();
    assert!(matches!(e.kind, AddressErrorKind::Invalid));
    assert_eq!(e.text, "invalid IP address syntax");
}

#[test]
fn interface_address_rejects_multicast_and_duplicates() {
    let e = interface_address("224.0.0.1/32").unwrap_err();
    assert!(matches!(e.kind, AddressErrorKind::Multicast(_)));
    assert_eq!(e.text, "multicast address");
    let e = interface_address("10.0.0.1/24,10.0.0.2/24").unwrap_err();
    assert!(matches!(e.kind, AddressErrorKind::DuplicateV4));
    assert_eq!(e.text, "duplicate IPv4 address");
    let e = interface_address("fd00::1/64,fd00::2/64").unwrap_err();
    assert!(matches!(e.kind, AddressErrorKind::DuplicateV6));
    assert_eq!(e.text, "duplicate IPv6 address");
}

#[test]
fn peer_allowed_ips_holds_the_one_network() {
    let v = peer_allowed_ips("10.8.0.1/32").unwrap();
    assert_eq!(v.len(), 1);
    assert_eq!(v[0].to_string(), "10.8.0.1/32");
}

#[test]
fn peer_allowed_ips_rejects_bad_text() {
    assert_eq!(peer_allowed_ips("10.8.0.1/33").unwrap_err(), "invalid IP address syntax");
    assert_eq!(peer_allowed_ips("").unwrap_err(), "invalid IP address syntax");
}
