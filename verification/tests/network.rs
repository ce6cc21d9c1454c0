use kasou::deterministic_mac;

const HOST_UUID: &str = "564D8F2A-3B1C-4E5D-9A7B-1C2D3E4F5A6B";

#[test]
fn deterministic_mac_is_stable() {
    let mac1 = deterministic_mac(Some(HOST_UUID), "cid-k3s");
    let mac2 = deterministic_mac(Some(HOST_UUID), "cid-k3s");
    assert_eq!(mac1, mac2, "same input should produce same MAC");
    assert!(mac1.starts_with("52:55:55:"), "should use locally-administered prefix");
}

#[test]
fn deterministic_mac_differs_per_cluster() {
    let mac1 = deterministic_mac(Some(HOST_UUID), "cid-k3s");
    let mac2 = deterministic_mac(Some(HOST_UUID), "ryn-k3s");
    assert_ne!(mac1, mac2, "different clusters should get different MACs");
}
