use fer_api::auth::register;
use fer_api::claims::Claims;
use fer_api::contact::create;
use fer_api::contact::delete;
use fer_api::contact::find;
use fer_api::contact::get_all;
use fer_api::contact::update;
use fer_api::contact::NewUpdateContact;
use fer_api::error::ApiError;
use fer_api::store::Store;
use fer_api::user::Register;

const SALT: &str = "somesaltvalue";

fn principal(sub: &str, role: &str) -> Claims {
    Claims::new(sub.to_string(), role.to_string(), "fer".to_string(), 0)
}

fn seeded_store() -> Store {
    let mut store = Store::new();
    register(
        &mut store,
        Register {
            name: "Alice Smith".to_string(),
            email: "alice@x.com".to_string(),
            password: "password".to_string(),
        },
        SALT,
    )
    .unwrap();
    store
}

fn full_contact() -> NewUpdateContact {
    NewUpdateContact {
        lastname: Some("Stone".to_string()),
        firstname: Some("Bob".to_string()),
        email: Some("bob@contacts.com".to_string()),
        phone: Some("555-0100".to_string()),
    }
}

#[test]
fn create_and_list_contacts() {
    let mut store = seeded_store();
    let owner = principal("1", "user");
    let contact = create(&owner, &mut store, 1, full_contact()).unwrap();
    assert_eq!(contact.id, 1);
    assert_eq!(contact.user_id, 1);
    assert_eq!(contact.lastname.as_str(), "Stone");
    let listed = get_all(&owner, &store, 1).unwrap();
    assert_eq!(listed.len(), 1);
    assert_eq!(listed[0].email.as_str(), "bob@contacts.com");
    assert!(matches!(
        get_all(&principal("2", "user"), &store, 1),
        Err(ApiError::Forbidden)
    ));
}

#[test]
fn create_authorization_and_checks() {
    let mut store = seeded_store();
    assert!(matches!(
        create(&principal("2", "user"), &mut store, 1, full_contact()),
        Err(ApiError::Forbidden)
    ));
    // the owning user must exist
    assert!(matches!(
        create(&principal("9", "admin"), &mut store, 9, full_contact()),
        Err(ApiError::NotFound)
    ));
    // every field is required at creation
    let partial = NewUpdateContact {
        lastname: Some("Stone".to_string()),
        firstname: None,
        email: Some("bob@contacts.com".to_string()),
        phone: Some("555-0100".to_string()),
    };
    assert!(matches!(
        create(&principal("1", "user"), &mut store, 1, partial),
        Err(ApiError::NotValid)
    ));
}

#[test]
fn fetch_one_contact_by_owner_or_admin() {
    let mut store = seeded_store();
    let owner = principal("1", "user");
    create(&owner, &mut store, 1, full_contact()).unwrap();
    assert_eq!(find(&owner, &store, 1).unwrap().id, 1);
    assert_eq!(find(&principal("9", "admin"), &store, 1).unwrap().id, 1);
    assert!(matches!(
        find(&principal("2", "user"), &store, 1),
        Err(ApiError::Forbidden)
    ));
    assert!(matches!(find(&owner, &store, 5), Err(ApiError::NotFound)));
}

#[test]
fn update_contact_fields_partially() {
    let mut store = seeded_store();
    let owner = principal("1", "user");
    create(&owner, &mut store, 1, full_contact()).unwrap();
    let updated = update(
        &owner,
        &mut store,
        1,
        NewUpdateContact {
            lastname: None,
            firstname: None,
            email: None,
            phone: Some("555-0199".to_string()),
        },
    )
    .unwrap();
    assert_eq!(updated.phone.as_str(), "555-0199");
    assert_eq!(updated.lastname.as_str(), "Stone");
    assert_eq!(updated.user_id, 1);
    assert!(matches!(
        update(&principal("2", "user"), &mut store, 1, full_contact()),
        Err(ApiError::Forbidden)
    ));
}

#[test]
fn delete_contact() {
    let mut store = seeded_store();
    let owner = principal("1", "user");
    create(&owner, &mut store, 1, full_contact()).unwrap();
    assert!(matches!(
        delete(&principal("2", "user"), &mut store, 1),
        Err(ApiError::Forbidden)
    ));
    assert_eq!(delete(&owner, &mut store, 1).unwrap(), 1);
    assert!(matches!(find(&owner, &store, 1), Err(ApiError::NotFound)));
    assert!(matches!(delete(&owner, &mut store, 1), Err(ApiError::NotFound)));
}
