use login_flow::validate::{validate_email, validate_password, PasswordPolicy, ValidationError};

#[test]
fn empty_email_is_rejected() {
    assert_eq!(validate_email(""), Err(ValidationError::EmptyEmail));
    assert_eq!(validate_email("   "), Err(ValidationError::EmptyEmail));
}

#[test]
fn email_without_at_is_malformed() {
    assert_eq!(validate_email("not-an-email"), Err(ValidationError::MalformedEmail));
}

#[test]
fn email_without_domain_dot_is_malformed() {
    assert_eq!(validate_email("a@b"), Err(ValidationError::MalformedEmail));
    assert_eq!(validate_email("a@.com"), Err(ValidationError::MalformedEmail));
    assert_eq!(validate_email("a@b."), Err(ValidationError::MalformedEmail));
}

#[test]
fn email_shape_edge_cases() {
    assert_eq!(validate_email("@b.com"), Err(ValidationError::MalformedEmail));
    assert_eq!(validate_email("a@@b.com"), Err(ValidationError::MalformedEmail));
    assert_eq!(validate_email("a@b@c.com"), Err(ValidationError::MalformedEmail));
    assert_eq!(validate_email("a b@c.com"), Err(ValidationError::MalformedEmail));
}

#[test]
fn well_formed_emails_pass() {
    assert_eq!(validate_email("a@b.com"), Ok(()));
    assert_eq!(validate_email("first.last@mail.example.org"), Ok(()));
}

#[test]
fn empty_password_is_rejected() {
    let policy = PasswordPolicy::new();
    assert_eq!(validate_password("", &policy), Err(ValidationError::EmptyPassword));
    assert_eq!(validate_password(" \t", &policy), Err(ValidationError::EmptyPassword));
}

#[test]
fn password_length_policy() {
    let policy = PasswordPolicy::with_min_length(8);
    assert_eq!(validate_password("short", &policy), Err(ValidationError::TooWeak));
    assert_eq!(validate_password("secret12", &policy), Ok(()));
    assert_eq!(validate_password("secret123", &PasswordPolicy::new()), Ok(()));
}

#[test]
fn validation_is_repeatable() {
    assert_eq!(validate_email("x@y.z"), validate_email("x@y.z"));
    let policy = PasswordPolicy::new();
    assert_eq!(validate_password("p", &policy), validate_password("p", &policy));
}

#[test]
fn validation_messages() {
    assert_eq!(ValidationError::EmptyEmail.message(), "email is required");
    assert_eq!(ValidationError::MalformedEmail.message(), "email is not a valid address");
    assert_eq!(ValidationError::EmptyPassword.message(), "password is required");
    assert_eq!(ValidationError::TooWeak.message(), "password is too short");
}
