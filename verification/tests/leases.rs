use kasou::dhcp::{find_lease_by_mac, lease_ip_for_mac, parse_leases, DhcpLease};

#[test]
fn crlf_lines_and_unicode_whitespace_are_trimmed() {
    let content = "{\r\n \u{a0}ip_address=10.1.1.1\r\n\thw_address=1,AA:bb:cc:dd:ee:01 \r\n}\r\n";
    let leases = parse_leases(content);
    assert_eq!(
        leases,
        vec![DhcpLease {
            ip_address: "10.1.1.1".into(),
            hw_address: "AA:bb:cc:dd:ee:01".into(),
            name: None,
        }]
    );
}

#[test]
fn name_does_not_leak_into_next_block() {
    let content = "{\nname=first\nip_address=1.1.1.1\n}\n{\nip_address=2.2.2.2\nhw_address=aa\n}";
    let leases = parse_leases(content);
    assert_eq!(leases.len(), 1);
    assert_eq!(leases[0].name, None);
    assert_eq!(leases[0].ip_address, "2.2.2.2");
}

#[test]
fn only_one_type_prefix_is_stripped() {
    let leases = parse_leases("{\nip_address=1\nhw_address=1,1,aa\n}\n");
    assert_eq!(leases[0].hw_address, "1,aa");
}

#[test]
fn last_value_of_a_field_in_a_block_wins() {
    let leases = parse_leases("{\nip_address=1\nip_address=2\nhw_address=x\n}\n");
    assert_eq!(leases[0].ip_address, "2");
}

#[test]
fn lookup_in_lease_text() {
    let content = "{\nip_address=10.0.0.1\nhw_address=1,aa:bb\n}\n{\nip_address=10.0.0.2\nhw_address=1,AA:BB\n}\n";
    assert_eq!(lease_ip_for_mac(content, "aa:bb").as_deref(), Some("10.0.0.2"));
    assert_eq!(lease_ip_for_mac(content, "cc:dd"), None);
    let leases = parse_leases(content);
    assert_eq!(find_lease_by_mac(&leases, "Aa:Bb").unwrap().ip_address, "10.0.0.2");
    assert!(find_lease_by_mac(&[], "aa:bb").is_none());
}

#[test]
fn lease_texts_split_at_a_block_boundary_concatenate() {
    let a = "{\nip_address=10.0.0.1\nhw_address=1,aa:01\n}\n";
    let b = "{\nip_address=10.0.0.2\nhw_address=1,aa:02\nname=b\n}\n";
    let whole = format!("{a}{b}");
    let mut expected = parse_leases(a);
    expected.extend(parse_leases(b));
    assert_eq!(parse_leases(&whole), expected);
    assert_eq!(parse_leases(&whole).len(), 2);
}

#[test]
fn lookup_ignores_ascii_case_of_both_sides() {
    let content = "{\nip_address=10.0.0.9\nhw_address=1,De:aD:BE:ef:00:01\n}\n";
    assert_eq!(lease_ip_for_mac(content, "DE:AD:be:EF:00:01").as_deref(), Some("10.0.0.9"));
    assert_eq!(lease_ip_for_mac(content, "de:ad:be:ef:00:02"), None);
}
