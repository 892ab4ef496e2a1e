use mas_core::scope::{Scope, ScopeToken};
use mas_core::text::{compare_text, TextOrder};

#[test]
fn scope_text_is_sorted_and_deduplicated() {
    let s = Scope::parse("openid profile email openid").unwrap();
    assert_eq!(s.len(), 3);
    assert_eq!(s.to_string(), "email openid profile");
    assert_eq!(s.token(0), "email");
    assert!(s.contains("profile"));
    assert!(!s.contains("prof"));
}

#[test]
fn scope_text_round_trips() {
    let s = Scope::from_tokens(vec![
        ScopeToken::parse("urn:matrix:org.matrix.msc2967.client:device:XYZ").unwrap(),
        ScopeToken::parse("urn:matrix:org.matrix.msc2967.client:api:*").unwrap(),
        ScopeToken::openid(),
    ]);
    let text = s.to_string();
    assert_eq!(text, "openid urn:matrix:org.matrix.msc2967.client:api:* urn:matrix:org.matrix.msc2967.client:device:XYZ");
    let back = Scope::parse(&text).unwrap();
    assert_eq!(back.to_string(), text);
}

#[test]
fn invalid_scopes_are_refused() {
    assert!(Scope::parse("").is_err());
    assert!(Scope::parse("a  b").is_err());
    assert!(Scope::parse(" a").is_err());
    assert!(Scope::parse("a ").is_err());
    assert!(Scope::parse("a\"b").is_err());
    assert!(Scope::parse("a\\b").is_err());
    assert!(Scope::parse("é").is_err());
    assert!(ScopeToken::parse("").is_err());
    assert!(ScopeToken::parse("with space").is_err());
    assert!(ScopeToken::parse("!#[]~").is_ok());
    assert_eq!(ScopeToken::openid().as_str(), "openid");
}

#[test]
fn empty_scope_has_empty_text() {
    let s = Scope::new();
    assert_eq!(s.len(), 0);
    assert_eq!(s.to_string(), "");
}

#[test]
fn text_order_by_code_point() {
    assert_eq!(compare_text("a", "b"), TextOrder::Less);
    assert_eq!(compare_text("b", "a"), TextOrder::Greater);
    assert_eq!(compare_text("ab", "abc"), TextOrder::Less);
    assert_eq!(compare_text("abc", "abc"), TextOrder::Same);
    assert_eq!(compare_text("Z", "a"), TextOrder::Less);
    assert_eq!(compare_text("", ""), TextOrder::Same);
}
