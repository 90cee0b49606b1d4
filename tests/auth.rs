use splitwise_mcp_server::auth::{authorizes, check_token_request, credentials_match, TokenRefusal};

// "client:s3cret" in standard base64.
const BASIC_OK: &str = "Basic Y2xpZW50OnMzY3JldA==";

#[test]
fn bearer_token_is_accepted() {
    assert!(authorizes(Some("Bearer tok-123"), "tok-123", "client", "s3cret"));
    assert!(!authorizes(Some("Bearer tok-124"), "tok-123", "client", "s3cret"));
    assert!(!authorizes(Some("bearer tok-123"), "tok-123", "client", "s3cret"));
    assert!(!authorizes(None, "tok-123", "client", "s3cret"));
}

#[test]
fn basic_credentials_are_decoded_and_checked() {
    assert!(authorizes(Some(BASIC_OK), "tok", "client", "s3cret"));
    assert!(!authorizes(Some(BASIC_OK), "tok", "client", "other"));
    assert!(!authorizes(Some("Basic not base64!"), "tok", "client", "s3cret"));
    // "client:s3cret:x" has three parts.
    assert!(!authorizes(Some("Basic Y2xpZW50OnMzY3JldDp4"), "tok", "client", "s3cret"));
}

#[test]
fn credentials_split_on_one_colon() {
    assert!(credentials_match("a:b", "a", "b"));
    assert!(!credentials_match("a:b:c", "a", "b:c"));
    assert!(!credentials_match("ab", "a", "b"));
    assert!(credentials_match(":", "", ""));
}

#[test]
fn token_request_checks() {
    assert_eq!(check_token_request("client_credentials", "id", "sec", "id", "sec"), Ok(()));
    assert_eq!(check_token_request("password", "id", "sec", "id", "sec"), Err(TokenRefusal::UnsupportedGrant));
    assert_eq!(check_token_request("client_credentials", "id", "bad", "id", "sec"), Err(TokenRefusal::BadClient));
}
