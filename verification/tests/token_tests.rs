use fer_api::claims::Claims;
use fer_api::error::ApiError;
use fer_api::token::issue_token;
use fer_api::token::validate_token;
use fer_api::token::Keys;

fn keys() -> Keys {
    Keys::new(b"a-test-signing-secret")
}

#[test]
fn issue_validate_round_trip() {
    let keys = keys();
    let token = issue_token(&keys, "7".to_string(), "user".to_string(), "fer".to_string(), 1_000_000)
        .unwrap();
    let claims = validate_token(&keys, token.as_str(), 999_999).unwrap();
    assert_eq!(claims.sub.as_str(), "7");
    assert_eq!(claims.role.as_str(), "user");
    assert_eq!(claims.company.as_str(), "fer");
    assert_eq!(claims.exp, 1_000_000);
}

#[test]
fn expired_token_is_rejected() {
    let keys = keys();
    let token = issue_token(&keys, "7".to_string(), "user".to_string(), "fer".to_string(), 1_000_000)
        .unwrap();
    assert!(matches!(
        validate_token(&keys, token.as_str(), 1_000_000),
        Err(ApiError::InvalidToken)
    ));
    assert!(matches!(
        validate_token(&keys, token.as_str(), 2_000_000),
        Err(ApiError::InvalidToken)
    ));
}

#[test]
fn tampered_token_is_rejected() {
    let keys = keys();
    let token = issue_token(&keys, "7".to_string(), "user".to_string(), "fer".to_string(), 1_000_000)
        .unwrap();
    let mut tampered: Vec<char> = token.chars().collect();
    let last = tampered.len() - 1;
    tampered[last] = if tampered[last] == 'A' { 'B' } else { 'A' };
    let tampered: String = tampered.into_iter().collect();
    assert!(matches!(
        validate_token(&keys, tampered.as_str(), 0),
        Err(ApiError::InvalidToken)
    ));
    assert!(matches!(validate_token(&keys, "not.a.token", 0), Err(ApiError::InvalidToken)));
}

#[test]
fn wrong_key_is_rejected() {
    let keys = keys();
    let other = Keys::new(b"a-different-secret");
    let token = issue_token(&keys, "7".to_string(), "user".to_string(), "fer".to_string(), 1_000_000)
        .unwrap();
    assert!(matches!(
        validate_token(&other, token.as_str(), 0),
        Err(ApiError::InvalidToken)
    ));
}

#[test]
fn extraction_from_header() {
    let keys = keys();
    let token = issue_token(&keys, "3".to_string(), "admin".to_string(), "fer".to_string(), 500)
        .unwrap();
    let header = format!("Bearer {}", token);
    let claims = Claims::from_header(&keys, Some(header.as_str()), 100).unwrap();
    assert_eq!(claims.sub.as_str(), "3");
    assert!(claims.is_admin());
    assert!(matches!(
        Claims::from_header(&keys, None, 100),
        Err(ApiError::InvalidToken)
    ));
    assert!(matches!(
        Claims::from_header(&keys, Some(token.as_str()), 100),
        Err(ApiError::InvalidToken)
    ));
    assert!(matches!(
        Claims::from_header(&keys, Some(header.as_str()), 500),
        Err(ApiError::InvalidToken)
    ));
}
