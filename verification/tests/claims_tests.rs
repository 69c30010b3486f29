use fer_api::claims::bearer_token;
use fer_api::claims::Claims;

fn principal(sub: &str, role: &str) -> Claims {
    Claims::new(sub.to_string(), role.to_string(), "fer".to_string(), 0)
}

#[test]
fn admin_role() {
    assert!(principal("1", "admin").is_admin());
    assert!(!principal("1", "user").is_admin());
    assert!(!principal("1", "Admin").is_admin());
}

#[test]
fn owner_by_subject() {
    assert!(principal("7", "user").is_user(7));
    assert!(!principal("7", "user").is_user(8));
    assert!(principal("007", "user").is_user(7));
}

#[test]
fn non_numeric_subject_is_no_owner() {
    assert!(!principal("seven", "user").is_user(7));
    assert!(!principal("", "user").is_user(0));
    assert!(!principal("7x", "user").is_user(7));
}

#[test]
fn allowed_rule() {
    assert!(principal("3", "admin").is_allowed(9));
    assert!(principal("9", "user").is_allowed(9));
    assert!(!principal("3", "user").is_allowed(9));
}

#[test]
fn bearer_scheme() {
    assert_eq!(bearer_token("Bearer abc.def.ghi"), Some("abc.def.ghi"));
    assert_eq!(bearer_token("Bearer "), Some(""));
    assert_eq!(bearer_token("bearer abc"), None);
    assert_eq!(bearer_token("Bearer"), None);
    assert_eq!(bearer_token("Token abc"), None);
    assert_eq!(bearer_token(""), None);
}
