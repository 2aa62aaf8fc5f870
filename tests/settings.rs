use note_auth::config::{parse_minutes, AuthConfig};
use note_auth::credentials::{check_not_registered, check_password, password_digest};
use note_auth::error::{Error, StoreFailure};

#[test]
fn minutes_are_parsed() {
    assert_eq!(parse_minutes("20"), Some(20));
    assert_eq!(parse_minutes("007"), Some(7));
    assert_eq!(parse_minutes("18446744073709551615"), Some(u64::MAX));
    assert_eq!(parse_minutes("18446744073709551616"), None);
    assert_eq!(parse_minutes("0"), None);
    assert_eq!(parse_minutes(""), None);
    assert_eq!(parse_minutes("-5"), None);
    assert_eq!(parse_minutes("1x"), None);
    assert_eq!(parse_minutes(" 5"), None);
}

#[test]
fn unusable_window_falls_back() {
    assert_eq!(AuthConfig::new(None, Some("abc".to_string())).validity_minutes, 20);
    assert_eq!(AuthConfig::new(None, Some("0".to_string())).validity_minutes, 20);
    assert_eq!(AuthConfig::new(None, Some("45".to_string())).validity_minutes, 45);
}

#[test]
fn secret_defaults() {
    assert_eq!(AuthConfig::new(None, None).secret, "secret");
    assert_eq!(AuthConfig::new(Some("s3".to_string()), None).secret, "s3");
}

#[test]
fn error_response_hides_server_detail() {
    let e = Error::new(401, "nope".to_string());
    assert_eq!(e.response_status(), 401);
    assert_eq!(e.response_message(), "nope");
    let e = Error::new(503, "db down".to_string());
    assert_eq!(e.response_status(), 503);
    assert_eq!(e.response_message(), "Internal server error");
    let e = Error::new(42, "odd".to_string());
    assert_eq!(e.response_status(), 500);
    assert_eq!(e.response_message(), "Internal server error");
    let e = Error::new(1000, "odd".to_string());
    assert_eq!(e.response_status(), 500);
    let e = Error::new(999, "edge".to_string());
    assert_eq!(e.response_status(), 999);
    assert_eq!(e.response_message(), "Internal server error");
    let e = Error::new(100, "edge".to_string());
    assert_eq!(e.response_status(), 100);
    assert_eq!(e.response_message(), "edge");
}

#[test]
fn store_failures_map_to_statuses() {
    let e = Error::from_store_failure(StoreFailure::NotFound);
    assert_eq!((e.status_code, e.message.as_str()), (404, "Record not found"));
    let e = Error::from_store_failure(StoreFailure::Conflict("duplicate key".to_string()));
    assert_eq!((e.status_code, e.message.as_str()), (409, "duplicate key"));
    let e = Error::from_store_failure(StoreFailure::Other("boom".to_string()));
    assert_eq!(e.status_code, 500);
}

#[test]
fn password_digest_is_hex_sha256() {
    assert_eq!(password_digest("password"), "5e884898da28047151d0e56f8dc6292773603d0d6aabbdd62a11ef721d1542d8");
    assert_eq!(password_digest(""), "e3b0c44298fc1c149afbf4c8996fb92427ae41e4649b934ca495991b7852b855");
}

#[test]
fn password_check() {
    let stored = password_digest("hunter2");
    assert!(check_password("hunter2", &stored).is_ok());
    let e = check_password("hunter3", &stored).unwrap_err();
    assert_eq!((e.status_code, e.message.as_str()), (401, "Wrong username or password"));
}

#[test]
fn registration_check() {
    assert!(check_not_registered(false).is_ok());
    let e = check_not_registered(true).unwrap_err();
    assert_eq!((e.status_code, e.message.as_str()), (400, "This user is already registered"));
}
