use kasou::FrameworkError;

fn leaf(domain: &str, code: i64, desc: &str) -> FrameworkError {
    FrameworkError {
        domain: domain.into(),
        code,
        localized_description: desc.into(),
        failure_reason: None,
        recovery_suggestion: None,
        underlying: vec![],
    }
}

#[test]
fn nested_chain_text_is_exact() {
    let mut middle = leaf("B", 2, "middle");
    middle.underlying.push(leaf("C", 3, "inner"));
    let mut outer = leaf("A", 1, "outer");
    outer.failure_reason = Some("why".into());
    outer.underlying.push(middle);
    outer.underlying.push(leaf("D", i64::MIN, "last"));
    assert_eq!(
        outer.to_string(),
        "outer (reason: why) [A:1]\n  caused by: middle [B:2]\n  caused by: inner [C:3]\n  caused by: last [D:-9223372036854775808]"
    );
}

#[test]
fn clone_keeps_text() {
    let mut e = leaf("A", 0, "x");
    e.recovery_suggestion = Some("retry".into());
    e.underlying.push(leaf("B", 42, "y"));
    let c = e.clone();
    assert_eq!(c.to_string(), e.to_string());
    assert_eq!(c.to_string(), "x (suggestion: retry) [A:0]\n  caused by: y [B:42]");
}
