use backend_support::error::{new_error, CustomError, ErrorsType};

fn single(key: &str, value: &str) -> Vec<(String, Vec<String>)> {
    vec![(key.to_string(), vec![value.to_string()])]
}

fn validate_map() -> ErrorsType {
    let mut m = ErrorsType::new();
    m.insert_entry("field".to_string(), vec!["required".to_string()]);
    m
}

#[test]
fn status_codes_match_the_fixed_table() {
    assert_eq!(CustomError::Authorization("a".to_string()).status_code(), 401);
    assert_eq!(CustomError::NotFound("n".to_string()).status_code(), 404);
    assert_eq!(CustomError::Conversion("c".to_string()).status_code(), 422);
    assert_eq!(CustomError::ExistAccount("e".to_string()).status_code(), 422);
    assert_eq!(CustomError::Messages(validate_map()).status_code(), 422);
    assert_eq!(CustomError::Validate(validate_map()).status_code(), 422);
    assert_eq!(CustomError::Database("d".to_string()).status_code(), 500);
    assert_eq!(CustomError::Elastic("e".to_string()).status_code(), 500);
    assert_eq!(CustomError::System("s".to_string()).status_code(), 422);
    assert_eq!(CustomError::Json().status_code(), 422);
    assert_eq!(CustomError::Other("o".to_string()).status_code(), 422);
}

#[test]
fn every_variant_yields_one_category_with_one_message() {
    let cases: Vec<CustomError> = vec![
        CustomError::Authorization("a".to_string()),
        CustomError::NotFound("n".to_string()),
        CustomError::Conversion("c".to_string()),
        CustomError::ExistAccount("e".to_string()),
        CustomError::Messages(validate_map()),
        CustomError::Validate(validate_map()),
        CustomError::Database("d".to_string()),
        CustomError::Elastic("e".to_string()),
        CustomError::System("s".to_string()),
        CustomError::Json(),
        CustomError::Other("o".to_string()),
    ];
    for e in cases {
        let user = e.user_errors().expect("user view present");
        let system = e.system_errors().expect("system view present");
        assert_eq!(user.entries().len(), 1);
        assert_eq!(system.entries().len(), 1);
        assert!(!user.entries()[0].1.is_empty());
        assert!(!system.entries()[0].1.is_empty());
    }
}

#[test]
fn user_view_keys_and_preserved_messages() {
    let e = CustomError::Authorization("bad token".to_string());
    assert_eq!(e.user_errors().unwrap().entries(), &single("authorization", "bad token"));
    let e = CustomError::NotFound("missing".to_string());
    assert_eq!(e.user_errors().unwrap().entries(), &single("notfound", "missing"));
    let e = CustomError::Conversion("bad value".to_string());
    assert_eq!(e.user_errors().unwrap().entries(), &single("conversion", "bad value"));
    let e = CustomError::ExistAccount("taken".to_string());
    assert_eq!(e.user_errors().unwrap().entries(), &single("account", "taken"));
}

#[test]
fn infrastructure_errors_are_redacted_for_users() {
    let e = CustomError::Database("boom".to_string());
    assert_eq!(e.user_errors().unwrap().entries(), &single("database", "server error"));
    let e = CustomError::Elastic("cluster down".to_string());
    assert_eq!(e.user_errors().unwrap().entries(), &single("elastic", "server error"));
    let e = CustomError::System("panic".to_string());
    assert_eq!(e.user_errors().unwrap().entries(), &single("system", "server error"));
    let e = CustomError::Other("hidden".to_string());
    assert_eq!(e.user_errors().unwrap().entries(), &single("other", "server error"));
    let e = CustomError::Json();
    assert_eq!(e.user_errors().unwrap().entries(), &single("json", "error json format"));
}

#[test]
fn system_view_preserves_database_detail() {
    let e = CustomError::Database("boom".to_string());
    assert_eq!(e.system_errors().unwrap().entries(), &single("database", "boom"));
    assert_eq!(e.user_errors().unwrap().entries(), &single("database", "server error"));
    let e = CustomError::Elastic("cluster down".to_string());
    assert_eq!(e.system_errors().unwrap().entries(), &single("elastic", "cluster down"));
    let e = CustomError::System("panic".to_string());
    assert_eq!(e.system_errors().unwrap().entries(), &single("system", "panic"));
    let e = CustomError::Other("hidden".to_string());
    assert_eq!(e.system_errors().unwrap().entries(), &single("other", "hidden"));
    let e = CustomError::Json();
    assert_eq!(e.system_errors().unwrap().entries(), &single("json", "error json format"));
}

#[test]
fn validate_payload_passes_through_unchanged() {
    let e = CustomError::Validate(validate_map());
    let expected = single("field", "required");
    assert_eq!(e.user_errors().unwrap().entries(), &expected);
    assert_eq!(e.system_errors().unwrap().entries(), &expected);
}

#[test]
fn messages_payload_passes_through_unchanged() {
    let mut m = ErrorsType::new();
    m.insert_entry("first".to_string(), vec!["one".to_string(), "two".to_string()]);
    m.insert_entry("second".to_string(), vec!["three".to_string()]);
    let e = CustomError::Messages(m);
    let expected = vec![
        ("first".to_string(), vec!["one".to_string(), "two".to_string()]),
        ("second".to_string(), vec!["three".to_string()]),
    ];
    assert_eq!(e.user_errors().unwrap().entries(), &expected);
    assert_eq!(e.system_errors().unwrap().entries(), &expected);
}

#[test]
fn new_error_builds_a_single_entry() {
    let m = new_error("database", "server error");
    assert_eq!(m.entries(), &single("database", "server error"));
}

#[test]
fn duplicate_is_a_deep_copy() {
    let m = validate_map();
    let copy = m.duplicate();
    assert_eq!(copy.entries(), m.entries());
}

#[test]
fn display_renders_one_line_per_message() {
    let e = CustomError::Database("boom".to_string());
    assert_eq!(e.display_string(), "database: boom\n");

    let mut m = ErrorsType::new();
    m.insert_entry("first".to_string(), vec!["one".to_string(), "two".to_string()]);
    m.insert_entry("second".to_string(), vec!["three".to_string()]);
    let e = CustomError::Messages(m);
    assert_eq!(e.display_string(), "first: one\nfirst: two\nsecond: three\n");
}

#[test]
fn insert_entry_replaces_an_existing_key_in_place() {
    let mut m = ErrorsType::new();
    m.insert_entry("field".to_string(), vec!["required".to_string()]);
    m.insert_entry("other".to_string(), vec!["bad".to_string()]);
    m.insert_entry("field".to_string(), vec!["too long".to_string()]);
    let expected = vec![
        ("field".to_string(), vec!["too long".to_string()]),
        ("other".to_string(), vec!["bad".to_string()]),
    ];
    assert_eq!(m.entries(), &expected);
}
