use auth_store::error::{Error, Payload};

#[test]
fn status_mapping_is_exact_and_stable() {
    assert_eq!(Error::UserNotFoundError.to_status(), 404);
    assert_eq!(Error::EmailDoesNotExist("a@b.com".to_string()).to_status(), 404);
    assert_eq!(Error::EmailAlreadyExists.to_status(), 409);
    assert_eq!(Error::InvalidEmailAddressError.to_status(), 400);
    assert_eq!(Error::FormValidationError("code".to_string()).to_status(), 400);
    assert_eq!(Error::FormValidationErrors(vec!["c".to_string()]).to_status(), 400);
    assert_eq!(Error::UnauthorizedError.to_status(), 401);
    assert_eq!(Error::UnauthenticatedError.to_status(), 401);
    assert_eq!(Error::UnmanagedStateError.to_status(), 500);
    assert_eq!(Error::MutexPoisonError.to_status(), 500);
    assert_eq!(Error::TypeConversionError.to_status(), 500);
    assert_eq!(Error::SqlxError("boom".to_string()).to_status(), 500);
    assert_eq!(Error::RusqliteError("boom".to_string()).to_status(), 500);
    assert_eq!(Error::RedisError("boom".to_string()).to_status(), 500);
    assert_eq!(Error::SerdeError("boom".to_string()).to_status(), 500);
    assert_eq!(Error::Argon2ParsingError("boom".to_string()).to_status(), 500);
    assert_eq!(Error::IOError("boom".to_string()).to_status(), 500);
}

#[test]
fn domain_kinds_show_their_exact_message() {
    assert_eq!(
        Error::InvalidEmailAddressError.message(false),
        "That is not a valid email address."
    );
    assert_eq!(
        Error::EmailAlreadyExists.message(false),
        "That email address already exists. Try logging in."
    );
    assert_eq!(Error::UnauthorizedError.message(false), "Incorrect email or password");
    assert_eq!(
        Error::UserNotFoundError.message(false),
        "Could not find any user that fits the specified requirements."
    );
    assert_eq!(
        Error::EmailDoesNotExist("a@b.com".to_string()).message(false),
        "The email \"a@b.com\" is not registered. Try signing up first."
    );
}

#[test]
fn validation_kinds_concatenate_their_codes() {
    assert_eq!(Error::FormValidationError("too_short".to_string()).message(false), "too_short");
    assert_eq!(
        Error::FormValidationErrors(vec![
            "length".to_string(),
            "uppercase".to_string(),
            "digit".to_string()
        ])
        .message(false),
        "lengthuppercasedigit"
    );
    assert_eq!(Error::FormValidationErrors(vec![]).message(false), "");
}

#[test]
fn infra_kinds_are_generic_in_release_and_detailed_in_debug() {
    let e = Error::SqlxError("row not found".to_string());
    assert_eq!(e.message(false), "undefined");
    assert_eq!(e.message(true), "SqlxError: row not found");
    assert_eq!(Error::RusqliteError("x".to_string()).message(true), "RusqliteError: x");
    assert_eq!(Error::IOError("x".to_string()).message(true), "IOError: x");
    assert_eq!(Error::SerdeError("x".to_string()).message(true), "SerdeError: x");
    assert_eq!(Error::Argon2ParsingError("x".to_string()).message(true), "Argon2ParsingError: x");
    assert_eq!(Error::RedisError("x".to_string()).message(true), "RedisError: x");
    assert_eq!(Error::UnauthenticatedError.message(true), "undefined");
    assert_eq!(Error::TypeConversionError.message(false), "undefined");
    assert_eq!(Error::MutexPoisonError.message(false), "undefined");
    assert_eq!(Error::UnmanagedStateError.message(false), "undefined");
}

#[test]
fn payload_encodes_as_a_two_string_msgpack_array() {
    let payload = Payload { status: "error".to_string(), message: "msg".to_string() };
    let bytes = payload.encode();
    assert_eq!(
        bytes,
        vec![0x92, 0xa5, b'e', b'r', b'r', b'o', b'r', 0xa3, b'm', b's', b'g']
    );
}

#[test]
fn payload_round_trips_through_a_msgpack_reader() {
    let payload = Payload {
        status: "error".to_string(),
        message: "That email address already exists. Try logging in.".to_string(),
    };
    let bytes = payload.encode();
    let decoded: (String, String) = rmp_serde::decode::from_slice(&bytes).unwrap();
    assert_eq!(decoded.0, "error");
    assert_eq!(decoded.1, "That email address already exists. Try logging in.");
}

#[test]
fn long_strings_use_wider_length_headers() {
    let medium = "m".repeat(100);
    let bytes = Payload { status: "error".to_string(), message: medium.clone() }.encode();
    assert_eq!(bytes[7], 0xd9);
    assert_eq!(bytes[8], 100);
    assert_eq!(&bytes[9..], medium.as_bytes());

    let wide = "w".repeat(300);
    let bytes = Payload { status: "error".to_string(), message: wide.clone() }.encode();
    assert_eq!(bytes[7], 0xda);
    assert_eq!(bytes[8], 0x01);
    assert_eq!(bytes[9], 0x2c);
    assert_eq!(&bytes[10..], wide.as_bytes());

    let empty = Payload { status: "error".to_string(), message: String::new() }.encode();
    assert_eq!(empty[7], 0xa0);
    assert_eq!(empty.len(), 8);
}

#[test]
fn respond_body_carries_status_error_and_the_message() {
    let body = Error::UserNotFoundError.respond_body(false);
    let decoded: (String, String) = rmp_serde::decode::from_slice(&body).unwrap();
    assert_eq!(decoded.0, "error");
    assert_eq!(decoded.1, "Could not find any user that fits the specified requirements.");

    let body = Error::SqlxError("pool closed".to_string()).respond_body(true);
    let decoded: (String, String) = rmp_serde::decode::from_slice(&body).unwrap();
    assert_eq!(decoded.1, "SqlxError: pool closed");
}

#[test]
fn payload_renders_as_readable_text() {
    let payload = Payload { status: "error".to_string(), message: "oops".to_string() };
    assert_eq!(payload.render(), "status: error, message: oops");
}
