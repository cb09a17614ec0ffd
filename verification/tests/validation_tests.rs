use user_backend::errors::AppError;
use user_backend::validation::{SignUpUserDto, ValidationExtractor};

fn dto(name: Option<&str>, email: Option<&str>, password: Option<&str>) -> SignUpUserDto {
    SignUpUserDto {
        name: name.map(String::from),
        email: email.map(String::from),
        password: password.map(String::from),
    }
}

fn entries_of(e: AppError) -> Vec<(String, Vec<String>)> {
    match e {
        AppError::ValidationError(entries) => entries
            .into_iter()
            .map(|fe| (fe.field, fe.messages))
            .collect(),
        other => panic!("expected a validation error, got {:?}", other.into_response()),
    }
}

#[test]
fn valid_payload_passes() {
    let r = ValidationExtractor::from_payload(dto(
        Some("Ann"),
        Some("ann@example.com"),
        Some("secret1"),
    ));
    assert!(r.is_ok());
    let ex = r.ok().unwrap();
    assert_eq!(ex.0.name.as_deref(), Some("Ann"));
}

#[test]
fn all_three_fields_reported_at_once() {
    let r = ValidationExtractor::from_payload(dto(Some(""), Some("bad"), Some("12")));
    let entries = entries_of(r.err().expect("must be rejected"));
    assert_eq!(entries.len(), 3);
    assert_eq!(entries[0].0, "name");
    assert_eq!(entries[0].1, vec!["min value is 1".to_string()]);
    assert_eq!(entries[1].0, "email");
    assert_eq!(entries[1].1, vec!["email is invalid".to_string()]);
    assert_eq!(entries[2].0, "password");
    assert_eq!(entries[2].1, vec!["min value is 6".to_string()]);
}

#[test]
fn missing_fields_use_required_messages() {
    let r = ValidationExtractor::from_payload(dto(None, None, None));
    let entries = entries_of(r.err().expect("must be rejected"));
    assert_eq!(entries.len(), 3);
    assert_eq!(entries[0].1, vec!["name is required".to_string()]);
    assert_eq!(entries[1].1, vec!["email is required".to_string()]);
    assert_eq!(entries[2].1, vec!["password is required".to_string()]);
}

#[test]
fn empty_email_collects_both_messages() {
    let r = ValidationExtractor::from_payload(dto(Some("Ann"), Some(""), Some("secret1")));
    let entries = entries_of(r.err().expect("must be rejected"));
    assert_eq!(entries.len(), 1);
    assert_eq!(entries[0].0, "email");
    assert_eq!(
        entries[0].1,
        vec!["min value is 1".to_string(), "email is invalid".to_string()]
    );
}

#[test]
fn short_password_only_violation() {
    let r = ValidationExtractor::from_payload(dto(Some("Ann"), Some("ann@example.com"), Some("12345")));
    let entries = entries_of(r.err().expect("must be rejected"));
    assert_eq!(entries.len(), 1);
    assert_eq!(entries[0].0, "password");
    assert_eq!(entries[0].1, vec!["min value is 6".to_string()]);
}

#[test]
fn email_without_at_sign_is_invalid() {
    let r = ValidationExtractor::from_payload(dto(
        Some("Ann"),
        Some("ann.example.com"),
        Some("secret1"),
    ));
    let entries = entries_of(r.err().expect("must be rejected"));
    assert_eq!(entries.len(), 1);
    assert_eq!(entries[0].1, vec!["email is invalid".to_string()]);
}
