use auth_store::error::Error;
use auth_store::forms::is_secure;
use auth_store::user::rand_string;

#[test]
fn test_rand_string() {
    assert_eq!(rand_string(10).len(), 10);
    assert_eq!(rand_string(20).len(), 20);
    assert_eq!(rand_string(30).len(), 30);
    assert_ne!(rand_string(10), rand_string(10));
}

#[test]
fn rand_string_is_alphanumeric() {
    let s = rand_string(200);
    assert!(s.chars().all(|c| c.is_ascii_alphanumeric()));
    assert_eq!(rand_string(0), "");
}

#[test]
fn test_is_secure() {
    assert_eq!(is_secure("eXample1").is_ok(), true);
    assert_eq!(
        is_secure("1e7Xr"),
        Err(Error::FormValidationError(
            "The password must be at least 8 characters long.\n".to_string()
        ))
    );
    assert_eq!(
        is_secure("example1"),
        Err(Error::FormValidationError(
            "The password must include least one uppercase character.\n".to_string()
        ))
    );
    assert_eq!(
        is_secure("EXAMPLE1"),
        Err(Error::FormValidationError(
            "The password must include least one uppercase character.\n".to_string()
        ))
    );
    assert_eq!(
        is_secure("Examplee"),
        Err(Error::FormValidationError(
            "The password has to contain at least one digit.\n".to_string()
        ))
    );
}
