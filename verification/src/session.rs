//! Sessions and stored credentials, and the rules on their validity.

use vstd::prelude::*;
use vstd::string::*;
use crate::clock::{rfc3339_text, time_to_json};
use crate::signature::{KeyText, JWK};

verus! {

/// How long a session lasts: thirty days, in seconds.
pub const SESSION_LIFETIME_SECONDS: i64 = 2592000;

/// A session: the token that names it, its owner, the public key that
/// requests under it are signed with, and the instant at which it ends. A
/// session that was signed out or rotated away has no key left.
#[derive(Debug)]
pub struct Session {
    pub token: String,
    pub user_id: i32,
    pub public_key: Option<JWK>,
    pub expires_at: i64,
}

/// A stored credential: the owner, the unique username and the password
/// hash.
#[derive(Debug)]
pub struct Credential {
    pub user_id: i32,
    pub username: String,
    pub password_hash: String,
}

/// The identity that a request was authenticated as.
#[derive(Debug)]
pub struct AuthenticatedUser {
    pub user_id: i32,
    pub token: String,
}

/// What a client gets when a session is issued: the token and the end of
/// the session as RFC 3339 text.
#[derive(Debug)]
pub struct TokenExpiry {
    pub token: String,
    pub expires: String,
}

/// The content of an optional key.
pub open spec fn key_text(key: Option<JWK>) -> Option<KeyText> {
    match key {
        Some(k) => Some(k@),
        None => None,
    }
}

/// The mathematical content of a [`Session`].
pub struct SessionView {
    pub token: Seq<char>,
    pub user_id: int,
    pub public_key: Option<KeyText>,
    pub expires_at: int,
}

impl View for Session {
    type V = SessionView;

    open spec fn view(&self) -> SessionView {
        SessionView {
            token: self.token@,
            user_id: self.user_id as int,
            public_key: key_text(self.public_key),
            expires_at: self.expires_at as int,
        }
    }
}

/// The lesser of two instants.
pub open spec fn earlier(a: int, b: int) -> int {
    if a < b {
        a
    } else {
        b
    }
}

/// The end of a session issued at `now`: thirty days later, or the last
/// instant that can be represented.
pub open spec fn expiry_from(now: int) -> int {
    earlier(now + SESSION_LIFETIME_SECONDS, i64::MAX as int)
}

impl SessionView {
    /// A session is valid at `now` iff it ends after `now` and still has
    /// its key.
    pub open spec fn valid_at(self, now: int) -> bool {
        self.expires_at > now && self.public_key is Some
    }

    /// The session after it was invalidated at `now`: the key is gone, and
    /// the session ends at `now` unless it ended before.
    pub open spec fn invalidated(self, now: int) -> SessionView {
        SessionView { public_key: None, expires_at: earlier(self.expires_at, now), ..self }
    }
}

impl Session {
    /// Tests whether the session is valid at `now`.
    pub fn is_valid(&self, now: i64) -> (b: bool)
        ensures
            b == self@.valid_at(now as int),
    {
        self.expires_at > now && self.public_key.is_some()
    }

    /// Invalidates the session at `now`. The row is kept: only the key is
    /// cleared and the end capped, never extended.
    pub fn invalidate(&mut self, now: i64)
        ensures
            final(self)@ == old(self)@.invalidated(now as int),
            final(self).expires_at <= old(self).expires_at,
    {
        self.public_key = None;
        if now < self.expires_at {
            self.expires_at = now;
        }
    }

    /// Issues a session for `user_id` at `now`, named by `token` and bound
    /// to `public_key`.
    pub fn issue(user_id: i32, public_key: JWK, token: String, now: i64) -> (s: Session)
        ensures
            s@ == (SessionView {
                token: token@,
                user_id: user_id as int,
                public_key: Some(public_key@),
                expires_at: expiry_from(now as int),
            }),
    {
        let expires_at = if now > i64::MAX - SESSION_LIFETIME_SECONDS {
            i64::MAX
        } else {
            now + SESSION_LIFETIME_SECONDS
        };
        Session { token, user_id, public_key: Some(public_key), expires_at }
    }

    /// What the client is told of this session, or nothing where the end
    /// of the session has no RFC 3339 text.
    pub fn token_expiry(&self) -> (r: Option<TokenExpiry>)
        ensures
            match r {
                Some(t) => t.token@ == self.token@ && rfc3339_text(self.expires_at) == Some(
                    t.expires@,
                ),
                None => rfc3339_text(self.expires_at) is None,
            },
    {
        match time_to_json(self.expires_at) {
            Some(expires) => Some(TokenExpiry { token: self.token.clone(), expires }),
            None => None,
        }
    }
}

/// A session that was invalidated is valid at no instant.
pub proof fn law_invalidated_is_never_valid(s: SessionView, at: int, now: int)
    ensures
        !s.invalidated(at).valid_at(now),
{
}

/// Invalidating never extends a session, and doing it again at the same
/// or a later instant changes nothing.
pub proof fn law_invalidate_is_idempotent(s: SessionView, first: int, second: int)
    requires
        first <= second,
    ensures
        s.invalidated(first).expires_at <= s.expires_at,
        s.invalidated(first).invalidated(second) == s.invalidated(first),
{
}

/// A session issued at `now` is valid from then until thirty days later,
/// and not after.
pub proof fn law_issued_session_lifetime(s: SessionView, now: int, at: int)
    requires
        s.public_key is Some,
        s.expires_at == now + SESSION_LIFETIME_SECONDS,
    ensures
        s.valid_at(at) <==> at < now + SESSION_LIFETIME_SECONDS,
{
}

} // verus!
