use fer_api::auth::login;
use fer_api::auth::login_now;
use fer_api::auth::register;
use fer_api::auth::Auth;
use fer_api::auth::AuthPayload;
use fer_api::error::ApiError;
use fer_api::store::Store;
use fer_api::token::validate_token;
use fer_api::token::Keys;
use fer_api::user::get_one;
use fer_api::user::Register;
use fer_api::user::User;

const SALT: &str = "somesaltvalue";

fn keys() -> Keys {
    Keys::new(b"a-test-signing-secret")
}

fn alice() -> Register {
    Register {
        name: "Alice Smith".to_string(),
        email: "alice@x.com".to_string(),
        password: "secret1".to_string(),
    }
}

fn credentials(email: &str, password: &str) -> AuthPayload {
    AuthPayload { email: email.to_string(), password: password.to_string() }
}

#[test]
fn register_login_fetch_scenario() {
    let mut store = Store::new();
    let keys = keys();
    let id = register(&mut store, alice(), SALT).unwrap();
    assert_eq!(id.as_str(), "1");
    let body = login(&store, &keys, credentials("alice@x.com", "secret1"), 1_000).unwrap();
    let claims = validate_token(&keys, body.access_token.as_str(), 1_500).unwrap();
    assert_eq!(claims.sub.as_str(), "1");
    assert_eq!(claims.role.as_str(), "user");
    assert_eq!(claims.company.as_str(), "fer");
    assert_eq!(claims.exp, 4_600);
    let user = get_one(&claims, &store, 1).unwrap();
    assert_eq!(user.id, 1);
    assert_eq!(user.name.as_str(), "Alice Smith");
    assert_eq!(user.email.as_str(), "alice@x.com");
    assert_eq!(user.role.as_str(), "user");
    let err = get_one(&claims, &store, 2).unwrap_err();
    assert!(matches!(err, ApiError::Forbidden));
    assert_eq!(err.status_code(), 403);
}

#[test]
fn login_at_the_clock_now() {
    let mut store = Store::new();
    let keys = keys();
    register(&mut store, alice(), SALT).unwrap();
    let body = login_now(&store, &keys, credentials("alice@x.com", "secret1")).unwrap();
    // the token expires an hour after the real clock, so it is still
    // valid at the epoch
    let claims = validate_token(&keys, body.access_token.as_str(), 0).unwrap();
    assert_eq!(claims.sub.as_str(), "1");
    assert_eq!(claims.role.as_str(), "user");
}

#[test]
fn login_wrong_password_is_invalid() {
    let mut store = Store::new();
    let keys = keys();
    register(&mut store, alice(), SALT).unwrap();
    assert!(matches!(
        login(&store, &keys, credentials("alice@x.com", "secret2"), 0),
        Err(ApiError::NotValid)
    ));
}

#[test]
fn login_unknown_email_is_not_found() {
    let mut store = Store::new();
    let keys = keys();
    register(&mut store, alice(), SALT).unwrap();
    assert!(matches!(
        login(&store, &keys, credentials("bob@x.com", "secret1"), 0),
        Err(ApiError::NotFound)
    ));
}

#[test]
fn login_empty_password_needs_no_store() {
    let store = Store::new();
    let keys = keys();
    let err = login(&store, &keys, credentials("alice@x.com", ""), 0).unwrap_err();
    assert!(matches!(err, ApiError::NotValid));
    assert_eq!(err.status_code(), 400);
    let err = login(&store, &keys, credentials("", "secret1"), 0).unwrap_err();
    assert!(matches!(err, ApiError::NotValid));
}

#[test]
fn register_empty_credentials_rejected() {
    let mut store = Store::new();
    let missing = Register {
        name: "Alice Smith".to_string(),
        email: "alice@x.com".to_string(),
        password: String::new(),
    };
    assert!(matches!(
        register(&mut store, missing, SALT),
        Err(ApiError::MissingCredentials)
    ));
    assert_eq!(User::all(&store).unwrap().len(), 0);
}

#[test]
fn register_twice_same_email_conflicts() {
    let mut store = Store::new();
    register(&mut store, alice(), SALT).unwrap();
    let again = Register {
        name: "Alice Again".to_string(),
        email: "alice@x.com".to_string(),
        password: "another".to_string(),
    };
    assert!(matches!(register(&mut store, again, SALT), Err(ApiError::Conflict)));
    assert_eq!(User::all(&store).unwrap().len(), 1);
}

#[test]
fn failed_credential_write_leaves_no_user() {
    let mut store = Store::new();
    // a salt below the hashing primitive's minimum makes the credential
    // step fail; the user row must not survive it
    assert!(matches!(
        register(&mut store, alice(), "short"),
        Err(ApiError::ConfigurationError)
    ));
    assert!(matches!(
        User::find_by_email(&store, "alice@x.com".to_string()),
        Err(ApiError::NotFound)
    ));
    assert_eq!(User::all(&store).unwrap().len(), 0);
}

#[test]
fn credential_lookup_and_blocking() {
    let mut store = Store::new();
    register(&mut store, alice(), SALT).unwrap();
    let auth = Auth::find_by_user_id(&store, 1).unwrap();
    assert_eq!(auth.user_id, 1);
    assert_eq!(auth.error, 0);
    assert!(!auth.is_blocked());
    assert!(auth.is_valid("secret1".to_string()).unwrap());
    assert!(!auth.is_valid("secret2".to_string()).unwrap());
    let blocked = Auth { user_id: 9, hash: String::new(), error: 6 };
    assert!(blocked.is_blocked());
    let edge = Auth { user_id: 9, hash: String::new(), error: 5 };
    assert!(!edge.is_blocked());
    assert!(matches!(
        Auth::find_by_user_id(&store, 2),
        Err(ApiError::NotFound)
    ));
}
