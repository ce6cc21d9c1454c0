use kasou::{deterministic_mac, MacAddress, VmId};
use sha2::Digest;

#[test]
fn mac_text_parses_back_to_same_bytes() {
    for bytes in [
        [0x00, 0x01, 0x0a, 0x10, 0xfe, 0xff],
        [0x5a, 0x94, 0xef, 0xab, 0xcd, 0x12],
        [0x52, 0x55, 0x55, 0x00, 0x80, 0x7f],
    ] {
        let mac = MacAddress(bytes);
        let parsed = MacAddress::parse(&mac.to_string()).unwrap();
        assert_eq!(parsed, mac);
    }
}

#[test]
fn mac_parse_accepts_what_from_str_radix_accepts() {
    assert_eq!(MacAddress::parse("5A:94:EF:AB:CD:12").unwrap().0, [0x5a, 0x94, 0xef, 0xab, 0xcd, 0x12]);
    assert_eq!(MacAddress::parse("+5a:94:ef:ab:cd:12").unwrap().0, [0x5a, 0x94, 0xef, 0xab, 0xcd, 0x12]);
    assert_eq!(MacAddress::parse("005a:9:ef:ab:cd:12").unwrap().0, [0x5a, 0x09, 0xef, 0xab, 0xcd, 0x12]);
}

#[test]
fn mac_parse_rejects_bad_parts() {
    assert!(MacAddress::parse(":::::").is_err());
    assert!(MacAddress::parse("100:94:ef:ab:cd:12").is_err());
    assert!(MacAddress::parse("+:94:ef:ab:cd:12").is_err());
    assert!(MacAddress::parse("-1:94:ef:ab:cd:12").is_err());
    assert!(MacAddress::parse("5a:94:ef:ab:cd:1 ").is_err());
    assert!(MacAddress::parse("").is_err());
}

#[test]
fn mac_from_hash_takes_low_bytes_lowest_first() {
    let mac = MacAddress::from_hash(0x1122_3344_5566_7788);
    assert_eq!(mac.0, [0x52, 0x55, 0x55, 0x88, 0x77, 0x66]);
    assert_eq!(mac.to_string(), "52:55:55:88:77:66");
}

#[test]
fn host_mac_is_sha256_of_uuid_and_id() {
    let d = sha2::Sha256::digest(b"HOST-UUID-1cid-k3s");
    let expected = format!("52:55:55:{:02x}:{:02x}:{:02x}", d[0], d[1], d[2]);
    assert_eq!(deterministic_mac(Some("HOST-UUID-1"), "cid-k3s"), expected);
    let other = deterministic_mac(Some("HOST-UUID-2"), "cid-k3s");
    assert_ne!(other, expected, "another host gets another address");
    let d = sha2::Sha256::digest(b"cid-k3s");
    let no_uuid = format!("52:55:55:{:02x}:{:02x}:{:02x}", d[0], d[1], d[2]);
    assert_eq!(deterministic_mac(None, "cid-k3s"), no_uuid);
}

#[test]
fn host_mac_without_hostname_keeps_prefix() {
    let a = deterministic_mac(None, "cid-k3s");
    assert!(a.starts_with("52:55:55:"));
    assert_eq!(a.len(), 17);
    assert_eq!(a, deterministic_mac(None, "cid-k3s"));
}

#[test]
fn vm_id_from_string_and_default() {
    let id = VmId::from(String::from("abc"));
    assert_eq!(id.to_string(), "abc");
    assert_eq!(VmId::default().to_string(), "");
}

#[test]
fn platform_uuid_is_read_from_the_registry_listing() {
    let listing = "+-o J314sAP  <class IOPlatformExpertDevice, id 0x100000213>\n    {\n      \"IOPlatformSerialNumber\" = \"C02XXXX\"\n      \"IOPlatformUUID\" = \"1A2B3C4D-0000-1111-2222-333344445555\"\n    }\n";
    assert_eq!(
        kasou::network::platform_uuid(listing).as_deref(),
        Some("1A2B3C4D-0000-1111-2222-333344445555")
    );
    assert_eq!(kasou::network::platform_uuid("\"IOPlatformUUID\" = \"\"\n"), None);
    assert_eq!(kasou::network::platform_uuid("no uuid here"), None);
}
