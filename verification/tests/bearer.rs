use user_accounts::bearer::{bearer_token, HeaderError};

#[test]
fn bearer_token_follows_the_scheme() {
    assert_eq!(bearer_token(Some("Bearer abc.def.ghi")), Ok("abc.def.ghi"));
}

#[test]
fn bearer_token_without_a_header_is_missing() {
    assert_eq!(bearer_token(None), Err(HeaderError::Missing));
}

#[test]
fn bearer_token_may_be_empty() {
    assert_eq!(bearer_token(Some("Bearer ")), Ok(""));
}

#[test]
fn bearer_token_keeps_what_follows_the_first_space() {
    assert_eq!(bearer_token(Some("Bearer  abc")), Ok(" abc"));
    assert_eq!(bearer_token(Some("Bearer Bearer abc")), Ok("Bearer abc"));
}

#[test]
fn bearer_token_rejects_another_scheme() {
    assert_eq!(bearer_token(Some("Basic dXNlcjpwYXNz")), Err(HeaderError::BadScheme));
    assert_eq!(bearer_token(Some("Token abcdefgh")), Err(HeaderError::BadScheme));
}

#[test]
fn bearer_token_scheme_is_case_sensitive() {
    assert_eq!(bearer_token(Some("bearer abc")), Err(HeaderError::BadScheme));
    assert_eq!(bearer_token(Some("BEARER abc")), Err(HeaderError::BadScheme));
}

#[test]
fn bearer_token_rejects_a_short_value() {
    assert_eq!(bearer_token(Some("")), Err(HeaderError::BadScheme));
    assert_eq!(bearer_token(Some("Bearer")), Err(HeaderError::BadScheme));
    assert_eq!(bearer_token(Some("Bear")), Err(HeaderError::BadScheme));
}

#[test]
fn bearer_token_rejects_a_value_without_the_space() {
    assert_eq!(bearer_token(Some("Bearerabc")), Err(HeaderError::BadScheme));
    assert_eq!(bearer_token(Some(" Bearer abc")), Err(HeaderError::BadScheme));
}

#[test]
fn bearer_token_counts_characters_not_bytes() {
    assert_eq!(bearer_token(Some("Bearer t\u{00e9}st")), Ok("t\u{00e9}st"));
    assert_eq!(bearer_token(Some("\u{00e9}\u{00e9}\u{00e9}\u{00e9}\u{00e9}\u{00e9}\u{00e9}abc")), Err(HeaderError::BadScheme));
}
