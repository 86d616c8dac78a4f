use distant::auth::{Error, ErrorKind, Question, VerificationKind};

#[test]
fn question_new_uses_text_for_label() {
    let q = Question::new(String::from("Key?"));
    assert_eq!(q.label, "Key?");
    assert_eq!(q.text, "Key?");
    assert!(q.options.is_empty());
}

#[test]
fn known_variants_lists_host_only() {
    let v = VerificationKind::known_variants();
    assert_eq!(v, vec![VerificationKind::Host]);
}

#[test]
fn fatal_and_non_fatal_constructors() {
    let f = Error::fatal(String::from("bad key"));
    assert_eq!(f.kind, ErrorKind::Fatal);
    assert_eq!(f.text, "bad key");
    assert!(f.is_fatal());

    let n = Error::non_fatal(String::from("retry"));
    assert_eq!(n.kind, ErrorKind::Error);
    assert!(!n.is_fatal());
    assert!(!ErrorKind::Error.is_fatal());
    assert!(ErrorKind::Fatal.is_fatal());
}

#[test]
fn error_display_string() {
    let f = Error::fatal(String::from("bad key"));
    assert_eq!(f.to_display_string(), "Fatal: bad key");
}

#[test]
fn into_io_permission_denied_kind() {
    let f = Error::fatal(String::from("bad key"));
    let io_err = f.into_io_permission_denied();
    assert_eq!(io_err.kind(), std::io::ErrorKind::PermissionDenied);
}
