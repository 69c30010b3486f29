use fer_api::route;
use fer_api::str_eq;
use fer_api::ValidatedForm;

#[test]
fn route_prefixes_paths() {
    assert_eq!(route("/login".to_string()).as_str(), "/api/login");
    assert_eq!(route("/user/:id".to_string()).as_str(), "/api/user/:id");
    assert_eq!(route(String::new()).as_str(), "/api");
}

#[test]
fn string_comparison() {
    assert!(str_eq("abc", "abc"));
    assert!(!str_eq("abc", "abd"));
    assert!(!str_eq("abc", "ab"));
    assert!(str_eq("", ""));
}

#[test]
fn validated_form_carries_its_value() {
    let form = ValidatedForm(41);
    assert_eq!(form.0 + 1, 42);
}
