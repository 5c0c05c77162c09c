use hnstar::auth::{
    read_authorization, refresh_at, rotate_session, sign_out_at, try_authenticate,
    try_authenticate_at, try_refresh, SignInModel, SignatureAuthorizationModel,
    UsernamePasswordModel,
};
use hnstar::error::{ErrorKind, WebError};
use hnstar::session::{AuthenticatedUser, Credential, Session};
use hnstar::signature::JWK;

const N: &str = "qRWitAkrvksm2fjUmhrpn4fH1zO4VutiiNvbM1Tw86movGltECXzdluMLnzw2LIUBC19v78wbK-tMzFgyYE0iLmx36EqFcFJ1BxDP6Fev1OZP_Fs5kJZ9-wLEGpjZk-XyQDNm3I8hVT4lmbMyYtlbyQvlmpNMEAcqGxOpLcLQ90-YsKxgzQ_JNYg56VN0mJLCJfPmYT74137JquCNunNsTyfXb6OI8AolzprDdsLvq83oktr3GZAE8zWMewUh5UGFtP9_3-D197VypSVFRwBG3x5_alBxnrfCc44XvyQ0tHuOO2NNDTAbjbuQLReIeH_UI5-hYa4hxx5TZzJ2lj2Cw==";
const TIMESTAMP: &str = "2020-06-01T12:00:00+00:00";
const NOW: i64 = 1591012800;
const TOKEN: &str = "dG9rZW4tdG9rZW4tdG9rZW4=";
const SIGN_IN_SIGNATURE: &str = "ZokXbuActkb3/9iR9LnqI88WU7ZMjmhbw0O4CGg0RupmRuH1X/CTnce0uqTXGwe/95peiUDIofDWYM4L/l0/zLkHtdLAUotOA9GRoyKHVnMmQnI0Y0eYc6jDGV5qmIqEaXzgOMm9KOr3NoFGASAMm4iwWHJBbpa5zQ9fOmUxvLTpt9KbxvLgiwI0DPmeAA+3IYC+ZBfeJLfgVZCgukhR84vtwj4+kfgAsIhSVHfa89Qdy0mDKkOTR7prBTrHPGeRexesFH2wtz6eNqtqG/t+QQWznmMz96uSGof3NE1OP3jfpfkUhIa9h9iMzqXgtlqCqQjbf4fi/+MaT51zd1k6Hw==";
const REQUEST_SIGNATURE: &str = "AAdyMGjm5hMloR7f02pzY3ElCP2oY31hFZ33BydW44n0htFn2m4LN1iNEL6eZgAH/XVwFSeQ1TM0LFijniFnd1vyWlshSBlgHmhiJhke9WFbt7Try0uCFhob9ynafSST9MLCl9gvNputmC6LCp3GZDAmEm5RvcJk4at5HBaWs1Lny/TaajqNfobiAPrtbQgJ97jquY9B8eubA/Jiyg6QrUgSr9Y5/RxdX5zWFEIjJU+zlEyE9H6/75xnTRQ8rezFHSmPzt8zG52OxKeHQcVwRR82yPWNLgDb6EFevSPjGUZJ+i9WrM+lT843zLbE/kMpkXylrmmTzGIsRdJj3k+q2Q==";
const ENVELOPE: &str = "eyJ0b2tlbiI6ICJkRzlyWlc0dGRHOXJaVzR0ZEc5clpXND0iLCAidGltZXN0YW1wIjogIjIwMjAtMDYtMDFUMTI6MDA6MDArMDA6MDAiLCAic2lnbmF0dXJlIjogIngifQ==";

fn key() -> JWK {
    JWK {
        alg: String::from("RS512"),
        kty: String::from("RSA"),
        e: String::from("AQAB"),
        n: String::from(N),
    }
}

fn credentials(username: &str, password: &str) -> UsernamePasswordModel {
    UsernamePasswordModel { username: String::from(username), password: String::from(password) }
}

fn sign_in() -> SignInModel {
    SignInModel {
        username: String::from("alice"),
        password: String::from("correct horse"),
        timestamp: String::from(TIMESTAMP),
        public_key: key(),
        signature: String::from(SIGN_IN_SIGNATURE),
    }
}

fn stored() -> Credential {
    Credential { user_id: 7, username: String::from("alice"), password_hash: String::from("$argon2id$...") }
}

fn envelope() -> SignatureAuthorizationModel {
    SignatureAuthorizationModel {
        token: String::from(TOKEN),
        timestamp: String::from(TIMESTAMP),
        signature: String::from(REQUEST_SIGNATURE),
    }
}

fn session() -> Session {
    Session { token: String::from(TOKEN), user_id: 7, public_key: Some(key()), expires_at: NOW + 1000 }
}

fn refused(e: &WebError, kind: ErrorKind, message: &str) {
    assert_eq!(e.kind(), kind);
    assert_eq!(e.message(), message);
}

#[test]
fn credentials_within_bounds_are_valid() {
    assert!(credentials("bob", "0123456789").validate().is_none());
    assert!(credentials(&"u".repeat(30), &"p".repeat(100)).validate().is_none());
}

#[test]
fn password_too_long_is_refused() {
    let e = credentials("bob", &"p".repeat(101)).validate().unwrap();
    refused(&e, ErrorKind::Validation, "Given password is too long");
}

#[test]
fn password_too_short_is_refused() {
    let e = credentials("bob", "123456789").validate().unwrap();
    refused(&e, ErrorKind::Validation, "Given password is too short");
}

#[test]
fn username_too_short_is_refused() {
    let e = credentials("bo", "0123456789").validate().unwrap();
    refused(&e, ErrorKind::Validation, "Given username is too short");
}

#[test]
fn username_too_long_is_refused() {
    let e = credentials(&"u".repeat(31), "0123456789").validate().unwrap();
    assert_eq!(e.kind(), ErrorKind::Validation);
}

#[test]
fn lengths_count_characters_not_bytes() {
    assert!(credentials("äöü", "ääääääääää").validate().is_none());
    assert!(credentials(&"ü".repeat(30), &"ä".repeat(100)).validate().is_none());
}

#[test]
fn password_is_checked_before_username() {
    let e = credentials("b", "short").validate().unwrap();
    assert_eq!(e.message(), "Given password is too short");
}

#[test]
fn registration_of_a_free_name_proceeds() {
    assert!(credentials("alice", "correct horse").try_register(false).is_ok());
}

#[test]
fn registration_of_a_taken_name_conflicts() {
    let e = credentials("alice", "correct horse").try_register(true).unwrap_err();
    refused(&e, ErrorKind::Conflict, "Given username is taken");
    assert_eq!(e.status(), 400);
}

#[test]
fn registration_checks_lengths_before_the_name() {
    let e = credentials("al", "correct horse").try_register(true).unwrap_err();
    assert_eq!(e.kind(), ErrorKind::Validation);
}

#[test]
fn insert_password_builds_the_row() {
    let c = credentials("alice", "correct horse").insert_password(9, String::from("hash"));
    assert_eq!(c.user_id, 9);
    assert_eq!(c.username, "alice");
    assert_eq!(c.password_hash, "hash");
}

#[test]
fn change_password_builds_the_row_of_the_user() {
    let user = AuthenticatedUser { user_id: 7, token: String::from(TOKEN) };
    let c = credentials("alice", "a new password").change_password(&user, String::from("h2")).unwrap();
    assert_eq!(c.user_id, 7);
    assert_eq!(c.username, "alice");
    assert_eq!(c.password_hash, "h2");
}

#[test]
fn change_password_validates_first() {
    let user = AuthenticatedUser { user_id: 7, token: String::from(TOKEN) };
    let e = credentials("alice", "short").change_password(&user, String::from("h2")).unwrap_err();
    refused(&e, ErrorKind::Validation, "Given password is too short");
}

#[test]
fn sign_in_issues_a_session() {
    let s = sign_in().sign_in_at(Some(&stored()), true, NOW, String::from("fresh")).unwrap();
    assert_eq!(s.token, "fresh");
    assert_eq!(s.user_id, 7);
    assert_eq!(s.expires_at, NOW + 30 * 24 * 60 * 60);
    assert_eq!(s.public_key.unwrap().n, N);
}

#[test]
fn sign_in_with_wrong_password_is_unauthorized() {
    let e = sign_in().sign_in_at(Some(&stored()), false, NOW, String::from("fresh")).unwrap_err();
    refused(&e, ErrorKind::Unauthorized, "Invalid credentials");
    assert_eq!(e.status(), 401);
}

#[test]
fn sign_in_of_unknown_user_is_answered_like_a_wrong_password() {
    let unknown = sign_in().sign_in_at(None, false, NOW, String::from("fresh")).unwrap_err();
    let wrong = sign_in().sign_in_at(Some(&stored()), false, NOW, String::from("fresh")).unwrap_err();
    assert_eq!(unknown.kind(), wrong.kind());
    assert_eq!(unknown.message(), wrong.message());
}

#[test]
fn sign_in_with_credential_of_another_user_is_unauthorized() {
    let mut other = stored();
    other.username = String::from("mallory");
    let e = sign_in().sign_in_at(Some(&other), true, NOW, String::from("fresh")).unwrap_err();
    refused(&e, ErrorKind::Unauthorized, "Invalid credentials");
}

#[test]
fn sign_in_with_bad_signature_is_unauthorized() {
    let mut m = sign_in();
    m.timestamp = String::from("2020-06-01T12:00:01+00:00");
    let e = m.sign_in_at(Some(&stored()), true, NOW, String::from("fresh")).unwrap_err();
    refused(&e, ErrorKind::Unauthorized, "Invalid signature");
}

#[test]
fn sign_in_checks_lengths_first() {
    let mut m = sign_in();
    m.password = String::from("short");
    let e = m.sign_in_at(Some(&stored()), true, NOW, String::from("fresh")).unwrap_err();
    refused(&e, ErrorKind::Unauthorized, "Invalid credentials");
}

#[test]
fn check_sign_in_names_the_owner() {
    assert_eq!(sign_in().check_sign_in(Some(&stored()), true).unwrap(), 7);
}

#[test]
fn try_sign_in_draws_a_token() {
    let a = sign_in().try_sign_in(Some(&stored()), true).unwrap();
    let b = sign_in().try_sign_in(Some(&stored()), true).unwrap();
    assert_eq!(a.token.len(), 88);
    assert_ne!(a.token, b.token);
    assert_eq!(a.user_id, 7);
    assert!(a.expires_at > NOW);
}

#[test]
fn try_sign_in_refuses_like_sign_in_at() {
    let e = sign_in().try_sign_in(None, true).unwrap_err();
    refused(&e, ErrorKind::Unauthorized, "Invalid credentials");
}

#[test]
fn register_then_sign_in_then_register_again() {
    let model = credentials("alice", "correct horse");
    assert!(model.try_register(false).is_ok());
    let row = model.insert_password(7, String::from("hash"));
    let s = sign_in().sign_in_at(Some(&row), true, NOW, String::from("fresh")).unwrap();
    assert_eq!(s.user_id, 7);
    let again = model.try_register(true).unwrap_err();
    assert_eq!(again.kind(), ErrorKind::Conflict);
}

#[test]
fn missing_header_is_unauthorized() {
    let e = read_authorization(None).unwrap_err();
    refused(&e, ErrorKind::Unauthorized, "Authorization header missing");
    assert_eq!(e.status(), 401);
}

#[test]
fn header_of_another_scheme_is_unauthorized() {
    let e = read_authorization(Some("Bearer abc")).unwrap_err();
    refused(&e, ErrorKind::Unauthorized, "Invalid Authorization header");
    let e = read_authorization(Some("Signature")).unwrap_err();
    refused(&e, ErrorKind::Unauthorized, "Invalid Authorization header");
}

#[test]
fn header_payload_is_decoded() {
    let header = format!("Signature {}", ENVELOPE);
    let text = read_authorization(Some(&header)).unwrap();
    assert_eq!(
        text,
        "{\"token\": \"dG9rZW4tdG9rZW4tdG9rZW4=\", \"timestamp\": \"2020-06-01T12:00:00+00:00\", \"signature\": \"x\"}"
    );
}

#[test]
fn empty_payload_decodes_to_empty_text() {
    assert_eq!(read_authorization(Some("Signature ")).unwrap(), "");
}

#[test]
fn header_payload_that_is_not_base64_is_an_encoding_error() {
    let e = read_authorization(Some("Signature !!!")).unwrap_err();
    refused(&e, ErrorKind::Encoding, "Authorization is not base64");
    assert_eq!(e.status(), 401);
}

#[test]
fn header_payload_that_is_not_utf8_is_an_encoding_error() {
    let e = read_authorization(Some("Signature /w==")).unwrap_err();
    refused(&e, ErrorKind::Encoding, "Authorization is not UTF-8");
    assert_eq!(e.status(), 401);
}

#[test]
fn signed_request_authenticates() {
    let user = try_authenticate_at(&envelope(), Some(&session()), NOW).unwrap();
    assert_eq!(user.user_id, 7);
    assert_eq!(user.token, TOKEN);
}

#[test]
fn request_at_the_edge_of_the_window_authenticates() {
    let mut s = session();
    s.expires_at = NOW + 100000;
    assert!(try_authenticate_at(&envelope(), Some(&s), NOW + 600).is_ok());
    assert!(try_authenticate_at(&envelope(), Some(&s), NOW - 600).is_ok());
}

#[test]
fn stale_request_is_unauthorized() {
    let mut s = session();
    s.expires_at = NOW + 100000;
    let e = try_authenticate_at(&envelope(), Some(&s), NOW + 601).unwrap_err();
    refused(&e, ErrorKind::Unauthorized, "Authorization timestamp out of range");
}

#[test]
fn request_from_the_future_is_unauthorized() {
    let e = try_authenticate_at(&envelope(), Some(&session()), NOW - 601).unwrap_err();
    refused(&e, ErrorKind::Unauthorized, "Authorization timestamp out of range");
}

#[test]
fn unparseable_timestamp_is_unauthorized() {
    let mut m = envelope();
    m.timestamp = String::from("yesterday");
    let e = try_authenticate_at(&m, Some(&session()), NOW).unwrap_err();
    refused(&e, ErrorKind::Unauthorized, "Authorization timestamp out of range");
}

#[test]
fn unknown_token_is_unauthorized() {
    let e = try_authenticate_at(&envelope(), None, NOW).unwrap_err();
    refused(&e, ErrorKind::Unauthorized, "Token not found");
}

#[test]
fn session_of_another_token_is_unauthorized() {
    let mut s = session();
    s.token = String::from("another");
    let e = try_authenticate_at(&envelope(), Some(&s), NOW).unwrap_err();
    refused(&e, ErrorKind::Unauthorized, "Token not found");
}

#[test]
fn expired_session_is_unauthorized() {
    for expires_at in [NOW, NOW - 1, NOW - 100000, i64::MIN] {
        let mut s = session();
        s.expires_at = expires_at;
        let e = try_authenticate_at(&envelope(), Some(&s), NOW).unwrap_err();
        refused(&e, ErrorKind::Unauthorized, "Token not found");
    }
}

#[test]
fn session_without_key_is_unauthorized() {
    let mut s = session();
    s.public_key = None;
    let e = try_authenticate_at(&envelope(), Some(&s), NOW).unwrap_err();
    refused(&e, ErrorKind::Unauthorized, "Token not found");
}

#[test]
fn wrong_signature_is_invalid() {
    let mut m = envelope();
    m.signature = String::from(SIGN_IN_SIGNATURE);
    let e = try_authenticate_at(&m, Some(&session()), NOW).unwrap_err();
    refused(&e, ErrorKind::Invalid, "Invalid signature");
    assert_eq!(e.status(), 400);
}

#[test]
fn old_timestamp_is_refused_by_the_clock() {
    let e = try_authenticate(&envelope(), Some(&session())).unwrap_err();
    refused(&e, ErrorKind::Unauthorized, "Authorization timestamp out of range");
}

#[test]
fn rotation_carries_the_key_over() {
    let user = AuthenticatedUser { user_id: 7, token: String::from(TOKEN) };
    let x = rotate_session(&user, Some(session()), NOW, String::from("next")).unwrap();
    assert_eq!(x.retired.token, TOKEN);
    assert!(x.retired.public_key.is_none());
    assert_eq!(x.retired.expires_at, NOW);
    assert_eq!(x.issued.token, "next");
    assert_eq!(x.issued.user_id, 7);
    assert_eq!(x.issued.public_key.unwrap().n, N);
    assert_eq!(x.issued.expires_at, NOW + 2592000);
}

#[test]
fn rotation_never_extends_the_old_session() {
    let user = AuthenticatedUser { user_id: 7, token: String::from(TOKEN) };
    let mut s = session();
    s.expires_at = NOW - 50;
    let x = rotate_session(&user, Some(s), NOW, String::from("next")).unwrap();
    assert_eq!(x.retired.expires_at, NOW - 50);
}

#[test]
fn rotation_of_a_missing_session_is_a_store_error() {
    let user = AuthenticatedUser { user_id: 7, token: String::from(TOKEN) };
    let e = rotate_session(&user, None, NOW, String::from("next")).unwrap_err();
    refused(&e, ErrorKind::Store, "Session to refresh not found");
    assert_eq!(e.status(), 500);
}

#[test]
fn rotation_of_another_users_session_is_a_store_error() {
    let user = AuthenticatedUser { user_id: 8, token: String::from(TOKEN) };
    let e = rotate_session(&user, Some(session()), NOW, String::from("next")).unwrap_err();
    assert_eq!(e.kind(), ErrorKind::Store);
    let user = AuthenticatedUser { user_id: 7, token: String::from("other") };
    let e = rotate_session(&user, Some(session()), NOW, String::from("next")).unwrap_err();
    assert_eq!(e.kind(), ErrorKind::Store);
}

#[test]
fn refresh_rotates_an_authenticated_session() {
    let seen = session();
    let x = refresh_at(&envelope(), Some(&seen), Some(session()), NOW, String::from("next")).unwrap();
    assert_eq!(x.issued.token, "next");
    assert!(!x.retired.is_valid(NOW));
    assert!(x.issued.is_valid(NOW));
}

#[test]
fn refresh_of_an_unauthenticated_request_is_refused() {
    let e = refresh_at(&envelope(), None, Some(session()), NOW, String::from("next")).unwrap_err();
    refused(&e, ErrorKind::Unauthorized, "Token not found");
}

#[test]
fn second_refresh_of_the_same_token_fails() {
    let seen = session();
    let first = refresh_at(&envelope(), Some(&seen), Some(session()), NOW, String::from("next")).unwrap();
    // A refresh that authenticated before the first one finished finds the
    // session retired when it comes to rotate it.
    let raced = refresh_at(&envelope(), Some(&seen), Some(first.retired), NOW, String::from("other"))
        .unwrap_err();
    refused(&raced, ErrorKind::Store, "Session to refresh not found");
    // A refresh that comes later does not authenticate.
    let first = refresh_at(&envelope(), Some(&seen), Some(session()), NOW, String::from("next")).unwrap();
    let late = refresh_at(&envelope(), Some(&first.retired), None, NOW, String::from("other"))
        .unwrap_err();
    refused(&late, ErrorKind::Unauthorized, "Token not found");
}

#[test]
fn try_refresh_checks_the_clock() {
    let seen = session();
    let e = try_refresh(&envelope(), Some(&seen), Some(session())).unwrap_err();
    refused(&e, ErrorKind::Unauthorized, "Authorization timestamp out of range");
}

#[test]
fn sign_out_invalidates_the_session() {
    let s = sign_out_at(&envelope(), Some(session()), NOW).unwrap();
    assert_eq!(s.token, TOKEN);
    assert_eq!(s.user_id, 7);
    assert!(s.public_key.is_none());
    assert_eq!(s.expires_at, NOW);
    assert!(!s.is_valid(NOW - 10));
}

#[test]
fn sign_out_twice_is_refused_the_second_time() {
    let s = sign_out_at(&envelope(), Some(session()), NOW).unwrap();
    let e = sign_out_at(&envelope(), Some(s), NOW).unwrap_err();
    refused(&e, ErrorKind::Unauthorized, "Token not found");
}

#[test]
fn sign_out_without_session_is_unauthorized() {
    let e = sign_out_at(&envelope(), None, NOW).unwrap_err();
    refused(&e, ErrorKind::Unauthorized, "Token not found");
}
