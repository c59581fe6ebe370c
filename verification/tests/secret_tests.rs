use backend_core::secret::SecretValue;

#[test]
fn a_wrapped_secret_is_revealed_unchanged() {
    let secret = SecretValue::new("mysql://root:SECRET-REDACTED@db/app".to_string());
    assert_eq!(secret.expose(), "mysql://root:SECRET-REDACTED@db/app");
}

#[test]
fn an_empty_secret_stays_empty() {
    let secret = SecretValue::new(String::new());
    assert_eq!(secret.expose(), "");
}
