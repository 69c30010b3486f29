use fer_api::auth::register;
use fer_api::claims::Claims;
use fer_api::error::ApiError;
use fer_api::store::Store;
use fer_api::user::delete_one;
use fer_api::user::get_all;
use fer_api::user::get_one;
use fer_api::user::update_one;
use fer_api::user::Register;
use fer_api::user::Update;
use fer_api::user::User;

const SALT: &str = "somesaltvalue";

fn principal(sub: &str, role: &str) -> Claims {
    Claims::new(sub.to_string(), role.to_string(), "fer".to_string(), 0)
}

fn seed(store: &mut Store, name: &str, email: &str) -> String {
    register(
        store,
        Register {
            name: name.to_string(),
            email: email.to_string(),
            password: "password".to_string(),
        },
        SALT,
    )
    .unwrap()
}

#[test]
fn listing_needs_admin() {
    let mut store = Store::new();
    seed(&mut store, "Alice Smith", "alice@x.com");
    seed(&mut store, "Bob Stone", "bob@x.com");
    let users = get_all(&principal("9", "admin"), &store).unwrap();
    assert_eq!(users.len(), 2);
    assert_eq!(users[0].email.as_str(), "alice@x.com");
    assert_eq!(users[1].email.as_str(), "bob@x.com");
    assert!(matches!(
        get_all(&principal("1", "user"), &store),
        Err(ApiError::AdminRequired)
    ));
}

#[test]
fn fetch_one_by_admin_or_self() {
    let mut store = Store::new();
    seed(&mut store, "Alice Smith", "alice@x.com");
    assert_eq!(get_one(&principal("9", "admin"), &store, 1).unwrap().id, 1);
    assert_eq!(get_one(&principal("1", "user"), &store, 1).unwrap().id, 1);
    assert!(matches!(
        get_one(&principal("2", "user"), &store, 1),
        Err(ApiError::Forbidden)
    ));
    assert!(matches!(
        get_one(&principal("9", "admin"), &store, 5),
        Err(ApiError::NotFound)
    ));
}

#[test]
fn update_fields_partially() {
    let mut store = Store::new();
    seed(&mut store, "Alice Smith", "alice@x.com");
    let updated = update_one(
        &principal("1", "user"),
        &mut store,
        1,
        Update { name: Some("Alice Stone".to_string()), email: None, role: None },
    )
    .unwrap();
    assert_eq!(updated.name.as_str(), "Alice Stone");
    assert_eq!(updated.email.as_str(), "alice@x.com");
    assert_eq!(updated.role.as_str(), "user");
    let fetched = User::find(&store, 1).unwrap();
    assert_eq!(fetched.name.as_str(), "Alice Stone");
}

#[test]
fn update_to_taken_email_conflicts() {
    let mut store = Store::new();
    seed(&mut store, "Alice Smith", "alice@x.com");
    seed(&mut store, "Bob Stone", "bob@x.com");
    assert!(matches!(
        update_one(
            &principal("2", "user"),
            &mut store,
            2,
            Update { name: None, email: Some("alice@x.com".to_string()), role: None },
        ),
        Err(ApiError::Conflict)
    ));
    // keeping one's own email is no conflict
    let kept = update_one(
        &principal("2", "user"),
        &mut store,
        2,
        Update { name: None, email: Some("bob@x.com".to_string()), role: None },
    )
    .unwrap();
    assert_eq!(kept.email.as_str(), "bob@x.com");
}

#[test]
fn update_authorization() {
    let mut store = Store::new();
    seed(&mut store, "Alice Smith", "alice@x.com");
    assert!(matches!(
        update_one(
            &principal("2", "user"),
            &mut store,
            1,
            Update { name: Some("Mallory".to_string()), email: None, role: None },
        ),
        Err(ApiError::Forbidden)
    ));
    assert_eq!(User::find(&store, 1).unwrap().name.as_str(), "Alice Smith");
    assert!(matches!(
        update_one(
            &principal("9", "admin"),
            &mut store,
            5,
            Update { name: None, email: None, role: None },
        ),
        Err(ApiError::NotFound)
    ));
}

#[test]
fn delete_removes_user_and_credential() {
    let mut store = Store::new();
    seed(&mut store, "Alice Smith", "alice@x.com");
    assert_eq!(delete_one(&principal("1", "user"), &mut store, 1).unwrap(), 1);
    assert!(matches!(User::find(&store, 1), Err(ApiError::NotFound)));
    assert!(matches!(
        fer_api::auth::Auth::find_by_user_id(&store, 1),
        Err(ApiError::NotFound)
    ));
    // deleting an absent row is not an error, as row counts report
    assert_eq!(delete_one(&principal("9", "admin"), &mut store, 1).unwrap(), 0);
}

#[test]
fn delete_authorization() {
    let mut store = Store::new();
    seed(&mut store, "Alice Smith", "alice@x.com");
    assert!(matches!(
        delete_one(&principal("2", "user"), &mut store, 1),
        Err(ApiError::Forbidden)
    ));
    assert_eq!(User::all(&store).unwrap().len(), 1);
}
