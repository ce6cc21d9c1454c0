use kasou::FrameworkError;

/// Single-layer text: the description, then [domain:code].
#[test]
fn display_single_layer_no_underlying() {
    let e = FrameworkError {
        domain: "VZErrorDomain".into(),
        code: 7,
        localized_description: "Invalid virtual machine configuration.".into(),
        failure_reason: None,
        recovery_suggestion: None,
        underlying: vec![],
    };
    let s = e.to_string();
    assert_eq!(s, "Invalid virtual machine configuration. [VZErrorDomain:7]", "got: {s}");
}

#[test]
fn display_includes_reason_and_suggestion() {
    let e = FrameworkError {
        domain: "VZErrorDomain".into(),
        code: 7,
        localized_description: "Invalid virtual machine configuration.".into(),
        failure_reason: Some("Storage attachment shape rejected.".into()),
        recovery_suggestion: Some("Re-check disk paths.".into()),
        underlying: vec![],
    };
    let s = e.to_string();
    assert!(s.contains("(reason: Storage attachment shape rejected.)"), "got: {s}");
    assert!(s.contains("(suggestion: Re-check disk paths.)"), "got: {s}");
    assert!(s.contains("[VZErrorDomain:7]"), "got: {s}");
}

#[test]
fn display_walks_underlying_chain() {
    let inner = FrameworkError {
        domain: "POSIXErrorDomain".into(),
        code: 13,
        localized_description: "Permission denied.".into(),
        failure_reason: None,
        recovery_suggestion: None,
        underlying: vec![],
    };
    let outer = FrameworkError {
        domain: "VZErrorDomain".into(),
        code: 7,
        localized_description: "Failed to open storage.".into(),
        failure_reason: None,
        recovery_suggestion: None,
        underlying: vec![inner],
    };
    let s = outer.to_string();
    assert!(s.contains("Failed to open storage."), "got: {s}");
    assert!(s.contains("\n  caused by: Permission denied."), "got: {s}");
    assert!(s.contains("[POSIXErrorDomain:13]"), "got: {s}");
}

#[test]
fn clone_and_equality_via_derive() {
    let e = FrameworkError {
        domain: "VZErrorDomain".into(),
        code: 7,
        localized_description: "x".into(),
        failure_reason: Some("y".into()),
        recovery_suggestion: None,
        underlying: vec![FrameworkError {
            domain: "POSIXErrorDomain".into(),
            code: 13,
            localized_description: "Permission denied.".into(),
            failure_reason: None,
            recovery_suggestion: None,
            underlying: vec![],
        }],
    };
    let cloned = e.clone();
    assert_eq!(cloned, e);
    let mut tampered = e.clone();
    tampered.code = 99;
    assert_ne!(tampered, e);
}
