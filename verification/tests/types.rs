use kasou::{KasouError, MacAddress, VmId};

#[test]
fn mac_address_display() {
    let mac = MacAddress([0x5a, 0x94, 0xef, 0xab, 0xcd, 0x12]);
    assert_eq!(mac.to_string(), "5a:94:ef:ab:cd:12");
}

#[test]
fn mac_address_parse() {
    let mac = MacAddress::parse("5a:94:ef:ab:cd:12").unwrap();
    assert_eq!(mac.0, [0x5a, 0x94, 0xef, 0xab, 0xcd, 0x12]);
}

#[test]
fn mac_address_parse_invalid() {
    assert!(MacAddress::parse("not-a-mac").is_err());
    assert!(MacAddress::parse("5a:94:ef:ab:cd").is_err());
    assert!(MacAddress::parse("5a:94:ef:ab:cd:12:ff").is_err());
    assert!(MacAddress::parse("gg:94:ef:ab:cd:12").is_err());
    // Verify it returns KasouError::InvalidMac
    match MacAddress::parse("bad") {
        Err(KasouError::InvalidMac(s)) => assert_eq!(s, "bad"),
        other => panic!("expected InvalidMac, got {other:?}"),
    }
}

#[test]
fn mac_address_deterministic_stable() {
    let a = MacAddress::deterministic("host", "cid-k3s");
    let b = MacAddress::deterministic("host", "cid-k3s");
    assert_eq!(a, b);
    assert_eq!(a.0[0], 0x52); // locally-administered prefix
    assert_eq!(a.0[1], 0x55);
    assert_eq!(a.0[2], 0x55);
}

#[test]
fn mac_address_deterministic_differs() {
    let a = MacAddress::deterministic("host", "cid-k3s");
    let b = MacAddress::deterministic("host", "ryn-k3s");
    assert_ne!(a, b);
}

#[test]
fn vm_id_from_str() {
    let id: VmId = "my-vm".into();
    assert_eq!(id.0, "my-vm");
    assert_eq!(id.to_string(), "my-vm");
}
