use parallelion::template::resolve_command;

#[test]
fn substitutes_placeholder() {
    let resolved = resolve_command(&b"echo {}".to_vec(), &b"x".to_vec());
    assert_eq!(resolved, b"echo x".to_vec());
}

#[test]
fn template_without_placeholder_is_unchanged() {
    let template = b"echo hello".to_vec();
    assert_eq!(resolve_command(&template, &b"x".to_vec()), template);
    assert_eq!(resolve_command(&template, &b"whatever".to_vec()), template);
}

#[test]
fn substitutes_every_occurrence() {
    let resolved = resolve_command(&b"cp {} {}.bak".to_vec(), &b"f".to_vec());
    assert_eq!(resolved, b"cp f f.bak".to_vec());
}

#[test]
fn nested_braces_substitute_inner_token_only() {
    let resolved = resolve_command(&b"{{}}".to_vec(), &b"x".to_vec());
    assert_eq!(resolved, b"{x}".to_vec());
}

#[test]
fn empty_argument_erases_placeholder() {
    let resolved = resolve_command(&b"a{}b".to_vec(), &b"".to_vec());
    assert_eq!(resolved, b"ab".to_vec());
}

#[test]
fn empty_template_resolves_empty() {
    let resolved = resolve_command(&b"".to_vec(), &b"x".to_vec());
    assert_eq!(resolved, b"".to_vec());
}

#[test]
fn lone_braces_are_kept() {
    let resolved = resolve_command(&b"a{b}c".to_vec(), &b"x".to_vec());
    assert_eq!(resolved, b"a{b}c".to_vec());
}
