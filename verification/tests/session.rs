use hnstar::session::{Session, SESSION_LIFETIME_SECONDS};
use hnstar::signature::JWK;

fn some_key() -> JWK {
    JWK {
        alg: String::from("RS512"),
        kty: String::from("RSA"),
        e: String::from("AQAB"),
        n: String::from("AQAB"),
    }
}

#[test]
fn issued_session_lasts_thirty_days() {
    let s = Session::issue(3, some_key(), String::from("t"), 1000);
    assert_eq!(SESSION_LIFETIME_SECONDS, 30 * 24 * 60 * 60);
    assert_eq!(s.expires_at, 1000 + 2592000);
    assert!(s.is_valid(1000));
    assert!(s.is_valid(1000 + 2592000 - 1));
    assert!(!s.is_valid(1000 + 2592000));
    assert_eq!(s.user_id, 3);
    assert_eq!(s.token, "t");
}

#[test]
fn issue_near_the_end_of_time_saturates() {
    let s = Session::issue(3, some_key(), String::from("t"), i64::MAX - 5);
    assert_eq!(s.expires_at, i64::MAX);
}

#[test]
fn invalidate_clears_key_and_caps_expiry() {
    let mut s = Session::issue(3, some_key(), String::from("t"), 1000);
    s.invalidate(2000);
    assert!(s.public_key.is_none());
    assert_eq!(s.expires_at, 2000);
    assert!(!s.is_valid(0));
}

#[test]
fn invalidate_does_not_extend() {
    let mut s = Session { token: String::from("t"), user_id: 1, public_key: Some(some_key()), expires_at: 500 };
    s.invalidate(2000);
    assert_eq!(s.expires_at, 500);
}

#[test]
fn invalidate_again_changes_nothing() {
    let mut s = Session::issue(3, some_key(), String::from("t"), 1000);
    s.invalidate(2000);
    s.invalidate(3000);
    assert_eq!(s.expires_at, 2000);
    assert!(s.public_key.is_none());
}

#[test]
fn session_without_key_is_not_valid() {
    let s = Session { token: String::from("t"), user_id: 1, public_key: None, expires_at: i64::MAX };
    assert!(!s.is_valid(0));
}

#[test]
fn token_expiry_writes_rfc3339() {
    let s = Session { token: String::from("t"), user_id: 1, public_key: None, expires_at: 1591012800 };
    let t = s.token_expiry().unwrap();
    assert_eq!(t.token, "t");
    assert_eq!(t.expires, "2020-06-01T12:00:00+00:00");
}

#[test]
fn token_expiry_out_of_calendar_is_none() {
    let s = Session { token: String::from("t"), user_id: 1, public_key: None, expires_at: i64::MAX };
    assert!(s.token_expiry().is_none());
}
