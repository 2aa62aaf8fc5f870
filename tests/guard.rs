use std::cell::Cell;

use note_auth::auth::{strip_bearer, Auth, AuthMiddleware};
use note_auth::config::AuthConfig;
use note_auth::token::Token;

fn guard() -> AuthMiddleware<Cell<u32>> {
    AuthMiddleware::new(Auth::new(AuthConfig::new(None, None)), Cell::new(0))
}

fn run(m: &AuthMiddleware<Cell<u32>>, header: Option<&[u8]>, now: u64) -> Result<String, note_auth::error::Error> {
    m.call(header, now, |calls: &Cell<u32>, principal: String| {
        calls.set(calls.get() + 1);
        principal
    })
}

#[test]
fn missing_header_is_refused_before_the_handler() {
    let m = guard();
    let e = run(&m, None, 1000).unwrap_err();
    assert_eq!(e.status_code, 401);
    assert_eq!(e.message, "Authorization header not present");
    assert_eq!(m.service.get(), 0);
}

#[test]
fn expired_token_is_refused_with_login_again() {
    let m = guard();
    let token = Token::issue_at(&m.auth.config, 42, 1000).unwrap();
    let header = format!("Bearer {}", token);
    let e = run(&m, Some(header.as_bytes()), 1000 + 3600).unwrap_err();
    assert_eq!(e.status_code, 401);
    assert_eq!(e.message, "This token has expired, you must login again.");
    assert_eq!(m.service.get(), 0);
}

#[test]
fn valid_token_reaches_handler_with_principal() {
    let m = guard();
    let token = Token::issue_at(&m.auth.config, 42, 1000).unwrap();
    let header = format!("Bearer {}", token);
    let principal = run(&m, Some(header.as_bytes()), 1000).unwrap();
    assert_eq!(principal, "42");
    assert_eq!(m.service.get(), 1);
}

#[test]
fn token_without_prefix_is_accepted() {
    let m = guard();
    let token = Token::issue_at(&m.auth.config, 9, 1000).unwrap();
    assert_eq!(m.auth.check(Some(token.as_bytes()), 1000).unwrap(), "9");
}

#[test]
fn binary_header_is_not_a_string() {
    let m = guard();
    let e = run(&m, Some(&[0x42, 0xff, 0xfe]), 1000).unwrap_err();
    assert_eq!(e.status_code, 401);
    assert_eq!(e.message, "Token is not a valid string");
    assert_eq!(m.service.get(), 0);
}

#[test]
fn bad_token_is_invalid() {
    let m = guard();
    let e = run(&m, Some(b"Bearer abc.def.ghi"), 1000).unwrap_err();
    assert_eq!(e.status_code, 401);
    assert_eq!(e.message, "Invalid token");
    let other = Token::issue_at(&AuthConfig::new(Some("other".to_string()), None), 42, 1000).unwrap();
    let header = format!("Bearer {}", other);
    let e = run(&m, Some(header.as_bytes()), 1000).unwrap_err();
    assert_eq!(e.message, "Invalid token");
    assert_eq!(m.service.get(), 0);
}

#[test]
fn prefix_elsewhere_is_kept() {
    let m = guard();
    let token = Token::issue_at(&m.auth.config, 42, 1000).unwrap();
    let header = format!("{}Bearer ", token);
    let e = m.auth.check(Some(header.as_bytes()), 1000).unwrap_err();
    assert_eq!(e.message, "Invalid token");
}

#[test]
fn strip_bearer_removes_leading_prefix_only() {
    assert_eq!(strip_bearer("Bearer abc"), "abc");
    assert_eq!(strip_bearer("abc"), "abc");
    assert_eq!(strip_bearer("xBearer abc"), "xBearer abc");
    assert_eq!(strip_bearer("Bearer "), "");
    assert_eq!(strip_bearer("Bearer"), "Bearer");
    assert_eq!(strip_bearer("Bearer Bearer x"), "Bearer x");
}
