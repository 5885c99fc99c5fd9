use codechain_agent::env::parse_env;

fn pairs(v: &[(&str, &str)]) -> Vec<(String, String)> {
    v.iter().map(|(k, x)| (k.to_string(), x.to_string())).collect()
}

#[test]
fn parses_blank_separated_assignments() {
    assert_eq!(parse_env("A=1 B=2"), Some(pairs(&[("A", "1"), ("B", "2")])));
}

#[test]
fn parses_lines_and_tabs() {
    assert_eq!(
        parse_env("  RUST_LOG=info\n\tPORT=3485\r\n"),
        Some(pairs(&[("RUST_LOG", "info"), ("PORT", "3485")]))
    );
}

#[test]
fn splits_at_first_equals() {
    assert_eq!(parse_env("K=a=b"), Some(pairs(&[("K", "a=b")])));
}

#[test]
fn empty_key_or_value_is_accepted() {
    assert_eq!(parse_env("=v X="), Some(pairs(&[("", "v"), ("X", "")])));
}

#[test]
fn empty_string_has_no_assignments() {
    assert_eq!(parse_env(""), Some(vec![]));
    assert_eq!(parse_env(" \n "), Some(vec![]));
}

#[test]
fn token_without_equals_is_rejected() {
    assert_eq!(parse_env("BAD"), None);
    assert_eq!(parse_env("A=1 BAD B=2"), None);
}

#[test]
fn non_ascii_text_is_kept() {
    assert_eq!(parse_env("NAME=héllo"), Some(pairs(&[("NAME", "héllo")])));
}
