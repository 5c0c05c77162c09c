//! The authentication protocol: registration, sign-in, per-request
//! authentication, session refresh, sign-out and password change, as
//! decisions on plain values. The store is read and written by the caller;
//! every function here says what to answer and which rows to write.

use vstd::prelude::*;
use vstd::string::*;
use vstd::utf8::{decode_utf8, valid_utf8};
use crate::clock::{is_recent_at, now_seconds, recent};
use crate::codec::{base64_decode, base64_decoded, utf8_text};
use crate::error::{ErrorKind, WebError};
use crate::session::{expiry_from, key_text, AuthenticatedUser, Credential, Session, SessionView};
use crate::signature::{signature_valid, verify, JWK};
use crate::text::{char_count, has_prefix, same_text, starts_with};
use crate::token::{gen_session_token, is_session_token};

verus! {

/// The least and greatest number of characters of a password.
pub const MIN_PASSWORD_CHARS: usize = 10;

pub const MAX_PASSWORD_CHARS: usize = 100;

/// The least and greatest number of characters of a username.
pub const MIN_USERNAME_CHARS: usize = 3;

pub const MAX_USERNAME_CHARS: usize = 30;

/// How far, in seconds, the timestamp of a signed request may lie from the
/// server's time: ten minutes either way.
pub const FRESHNESS_WINDOW_SECONDS: i64 = 600;

/// A username with a password: the body of a registration and of a
/// password change.
#[derive(Debug)]
pub struct UsernamePasswordModel {
    pub username: String,
    pub password: String,
}

/// The body of a sign-in: the credentials, the client's public key and a
/// signature over timestamp and username.
#[derive(Debug)]
pub struct SignInModel {
    pub username: String,
    pub password: String,
    pub timestamp: String,
    pub public_key: JWK,
    pub signature: String,
}

/// The signed envelope of an authenticated request: the session token and a
/// signature over timestamp and token.
#[derive(Debug)]
pub struct SignatureAuthorizationModel {
    pub token: String,
    pub timestamp: String,
    pub signature: String,
}

/// The two sessions that a refresh leaves behind: the old one, invalidated,
/// and the new one.
#[derive(Debug)]
pub struct Rotation {
    pub retired: Session,
    pub issued: Session,
}

/// The value behind an optional reference.
pub open spec fn owned<T>(value: Option<&T>) -> Option<T> {
    match value {
        Some(v) => Some(*v),
        None => None,
    }
}

/// Whether username and password have lengths that the service accepts.
pub open spec fn within_bounds(username: Seq<char>, password: Seq<char>) -> bool {
    &&& MIN_PASSWORD_CHARS <= password.len() <= MAX_PASSWORD_CHARS
    &&& MIN_USERNAME_CHARS <= username.len() <= MAX_USERNAME_CHARS
}

/// What is wrong with the lengths of username and password: the message of
/// the first check that fails, the password's first. A username out of
/// bounds gets one message, whichever way it is out.
pub open spec fn credentials_problem(username: Seq<char>, password: Seq<char>) -> Option<Seq<char>> {
    if password.len() > MAX_PASSWORD_CHARS {
        Some("Given password is too long"@)
    } else if password.len() < MIN_PASSWORD_CHARS {
        Some("Given password is too short"@)
    } else if username.len() < MIN_USERNAME_CHARS {
        Some("Given username is too short"@)
    } else if username.len() > MAX_USERNAME_CHARS {
        Some("Given username is too short"@)
    } else {
        None
    }
}

/// Why a registration is refused: the lengths first, then a username that
/// is taken.
pub open spec fn registration_problem(username: Seq<char>, password: Seq<char>, taken: bool) -> Option<
    (ErrorKind, Seq<char>),
> {
    match credentials_problem(username, password) {
        Some(message) => Some((ErrorKind::Validation, message)),
        None => if taken {
            Some((ErrorKind::Conflict, "Given username is taken"@))
        } else {
            None
        },
    }
}

impl UsernamePasswordModel {
    /// Checks the lengths of username and password.
    pub fn validate(&self) -> (r: Option<WebError>)
        ensures
            match r {
                Some(e) => e@.0 == ErrorKind::Validation && credentials_problem(
                    self.username@,
                    self.password@,
                ) == Some(e@.1),
                None => credentials_problem(self.username@, self.password@) is None,
            },
            r is None <==> within_bounds(self.username@, self.password@),
    {
        let password_chars = char_count(self.password.as_str());
        let username_chars = char_count(self.username.as_str());
        if password_chars > MAX_PASSWORD_CHARS {
            Some(WebError::Validation(String::from_str("Given password is too long")))
        } else if password_chars < MIN_PASSWORD_CHARS {
            Some(WebError::Validation(String::from_str("Given password is too short")))
        } else if username_chars < MIN_USERNAME_CHARS {
            Some(WebError::Validation(String::from_str("Given username is too short")))
        } else if username_chars > MAX_USERNAME_CHARS {
            Some(WebError::Validation(String::from_str("Given username is too short")))
        } else {
            None
        }
    }

    /// Decides a registration, given whether the store already holds the
    /// username. On `Ok` the caller creates the user and stores the row
    /// that `insert_password` builds, in one transaction.
    pub fn try_register(&self, taken: bool) -> (r: Result<(), WebError>)
        ensures
            match r {
                Ok(_) => registration_problem(self.username@, self.password@, taken) is None,
                Err(e) => registration_problem(self.username@, self.password@, taken) == Some(e@),
            },
    {
        match self.validate() {
            Some(e) => Err(e),
            None => if taken {
                Err(WebError::Conflict(String::from_str("Given username is taken")))
            } else {
                Ok(())
            },
        }
    }

    /// The credential row of `user_id` for this username, holding
    /// `password_hash`, the keyed hash of the password.
    pub fn insert_password(&self, user_id: i32, password_hash: String) -> (c: Credential)
        ensures
            c.user_id == user_id,
            c.username@ == self.username@,
            c.password_hash@ == password_hash@,
    {
        Credential { user_id, username: self.username.clone(), password_hash }
    }

    /// Decides a password change for the authenticated `user`: the new
    /// credential row where the lengths are in bounds. Sessions are left as
    /// they are.
    pub fn change_password(&self, user: &AuthenticatedUser, password_hash: String) -> (r: Result<
        Credential,
        WebError,
    >)
        ensures
            match r {
                Ok(c) => {
                    &&& within_bounds(self.username@, self.password@)
                    &&& c.user_id == user.user_id
                    &&& c.username@ == self.username@
                    &&& c.password_hash@ == password_hash@
                },
                Err(e) => e@.0 == ErrorKind::Validation && credentials_problem(
                    self.username@,
                    self.password@,
                ) == Some(e@.1),
            },
    {
        match self.validate() {
            Some(e) => Err(e),
            None => Ok(self.insert_password(user.user_id, password_hash)),
        }
    }
}

/// Why a sign-in is refused before the store is asked: the lengths, then
/// the signature over timestamp and username.
pub open spec fn sign_in_request_problem(model: SignInModel) -> Option<(ErrorKind, Seq<char>)> {
    if !within_bounds(model.username@, model.password@) {
        Some((ErrorKind::Unauthorized, "Invalid credentials"@))
    } else if !signature_valid(
        model.public_key@,
        model.signature@,
        model.timestamp@ + model.username@,
    ) {
        Some((ErrorKind::Unauthorized, "Invalid signature"@))
    } else {
        None
    }
}

/// Why a sign-in is refused, in the order of the checks: the request
/// itself, the stored credential of that username, the password. A
/// username that is unknown and a password that does not match are
/// answered alike.
pub open spec fn sign_in_problem(model: SignInModel, stored: Option<Credential>, password_ok: bool) -> Option<
    (ErrorKind, Seq<char>),
> {
    match sign_in_request_problem(model) {
        Some(problem) => Some(problem),
        None => if !(stored matches Some(c) && c.username@ == model.username@) {
            Some((ErrorKind::Unauthorized, "Invalid credentials"@))
        } else if !password_ok {
            Some((ErrorKind::Unauthorized, "Invalid credentials"@))
        } else {
            None
        },
    }
}

fn concat(a: &str, b: &str) -> (r: String)
    ensures
        r@ == a@ + b@,
{
    let mut r = String::from_str(a);
    r.append(b);
    r
}

impl SignInModel {
    /// Checks what can be checked of a sign-in before the store is asked.
    pub fn check_request(&self) -> (r: Result<(), WebError>)
        ensures
            match r {
                Ok(_) => sign_in_request_problem(*self) is None,
                Err(e) => sign_in_request_problem(*self) == Some(e@),
            },
    {
        let password_chars = char_count(self.password.as_str());
        let username_chars = char_count(self.username.as_str());
        if password_chars > MAX_PASSWORD_CHARS || password_chars < MIN_PASSWORD_CHARS
            || username_chars < MIN_USERNAME_CHARS || username_chars > MAX_USERNAME_CHARS {
            return Err(WebError::Unauthorized(String::from_str("Invalid credentials")));
        }
        let message = concat(self.timestamp.as_str(), self.username.as_str());
        if !verify(&self.public_key, self.signature.as_str(), message.as_str()) {
            return Err(WebError::Unauthorized(String::from_str("Invalid signature")));
        }
        Ok(())
    }

    /// Decides whether the sign-in may proceed, given the credential that
    /// the store holds for the username and whether the password matches
    /// its hash. On `Ok` the result is the owner of the credential.
    pub fn check_sign_in(&self, stored: Option<&Credential>, password_ok: bool) -> (r: Result<
        i32,
        WebError,
    >)
        ensures
            match r {
                Ok(user_id) => {
                    &&& sign_in_problem(*self, owned(stored), password_ok) is None
                    &&& stored matches Some(c) && c.user_id == user_id
                },
                Err(e) => sign_in_problem(*self, owned(stored), password_ok) == Some(e@),
            },
    {
        match self.check_request() {
            Ok(_) => {},
            Err(e) => {
                return Err(e);
            },
        }
        match stored {
            Some(c) => {
                if !same_text(c.username.as_str(), self.username.as_str()) {
                    return Err(WebError::Unauthorized(String::from_str("Invalid credentials")));
                }
                if !password_ok {
                    return Err(WebError::Unauthorized(String::from_str("Invalid credentials")));
                }
                Ok(c.user_id)
            },
            None => Err(WebError::Unauthorized(String::from_str("Invalid credentials"))),
        }
    }

    /// Decides a sign-in at `now`, the session to be named by `token`: the
    /// session to store, valid for thirty days and bound to the client's
    /// key, or the refusal.
    pub fn sign_in_at(&self, stored: Option<&Credential>, password_ok: bool, now: i64, token: String) -> (r:
        Result<Session, WebError>)
        ensures
            match r {
                Ok(s) => {
                    &&& sign_in_problem(*self, owned(stored), password_ok) is None
                    &&& stored matches Some(c) && s@ == (SessionView {
                        token: token@,
                        user_id: c.user_id as int,
                        public_key: Some(self.public_key@),
                        expires_at: expiry_from(now as int),
                    })
                },
                Err(e) => sign_in_problem(*self, owned(stored), password_ok) == Some(e@),
            },
    {
        match self.check_sign_in(stored, password_ok) {
            Ok(user_id) => Ok(Session::issue(user_id, self.public_key.duplicate(), token, now)),
            Err(e) => Err(e),
        }
    }

    /// Decides a sign-in now, under a fresh token. Beyond the refusals of
    /// `sign_in_at`, the sign-in fails where the random source does.
    pub fn try_sign_in(&self, stored: Option<&Credential>, password_ok: bool) -> (r: Result<
        Session,
        WebError,
    >)
        ensures
            match r {
                Ok(s) => {
                    &&& sign_in_problem(*self, owned(stored), password_ok) is None
                    &&& is_session_token(s.token@)
                    &&& stored matches Some(c) && s.user_id == c.user_id
                    &&& key_text(s.public_key) == Some(self.public_key@)
                    &&& exists|now: i64| s.expires_at == expiry_from(now as int)
                },
                Err(e) => {
                    let problem = sign_in_problem(*self, owned(stored), password_ok);
                    problem == Some(e@) || (problem is None && e@ == (
                        ErrorKind::Store,
                        "No session token could be drawn"@,
                    ))
                },
            },
    {
        match self.check_sign_in(stored, password_ok) {
            Ok(user_id) => match gen_session_token() {
                Some(token) => {
                    let now = now_seconds();
                    Ok(Session::issue(user_id, self.public_key.duplicate(), token, now))
                },
                None => Err(WebError::Store(String::from_str("No session token could be drawn"))),
            },
            Err(e) => Err(e),
        }
    }
}

/// The scheme that an authorization header begins with.
pub const AUTHORIZATION_SCHEME: &'static str = "Signature ";

/// What an authorization header carries: the text that its base64 part
/// decodes to, or why there is none. A header that is missing or names
/// another scheme is unauthorized; one whose payload is not base64 or not
/// UTF-8 is an encoding error.
pub open spec fn authorization_payload(header: Option<&str>) -> Result<Seq<char>, (ErrorKind, Seq<char>)> {
    match header {
        None => Err((ErrorKind::Unauthorized, "Authorization header missing"@)),
        Some(h) => if !starts_with(h@, AUTHORIZATION_SCHEME@) {
            Err((ErrorKind::Unauthorized, "Invalid Authorization header"@))
        } else {
            match base64_decoded(h@.subrange(AUTHORIZATION_SCHEME@.len() as int, h@.len() as int)) {
                None => Err((ErrorKind::Encoding, "Authorization is not base64"@)),
                Some(bytes) => if valid_utf8(bytes) {
                    Ok(decode_utf8(bytes))
                } else {
                    Err((ErrorKind::Encoding, "Authorization is not UTF-8"@))
                },
            }
        },
    }
}

/// Takes the signed envelope out of the `Authorization` header of a
/// request: the JSON text of token, timestamp and signature.
pub fn read_authorization(header: Option<&str>) -> (r: Result<String, WebError>)
    ensures
        match r {
            Ok(text) => authorization_payload(header) == Ok::<Seq<char>, (ErrorKind, Seq<char>)>(
                text@,
            ),
            Err(e) => authorization_payload(header) == Err::<Seq<char>, (ErrorKind, Seq<char>)>(e@),
        },
{
    let h = match header {
        Some(h) => h,
        None => {
            return Err(WebError::Unauthorized(String::from_str("Authorization header missing")));
        },
    };
    if !has_prefix(h, AUTHORIZATION_SCHEME) {
        return Err(WebError::Unauthorized(String::from_str("Invalid Authorization header")));
    }
    let scheme_chars = char_count(AUTHORIZATION_SCHEME);
    let encoded = h.substring_char(scheme_chars, char_count(h));
    let bytes = match base64_decode(encoded) {
        Some(bytes) => bytes,
        None => {
            return Err(WebError::Encoding(String::from_str("Authorization is not base64")));
        },
    };
    match utf8_text(bytes) {
        Some(text) => Ok(text),
        None => Err(WebError::Encoding(String::from_str("Authorization is not UTF-8"))),
    }
}

/// Why a signed request is refused at `now`, in the order of the checks: a
/// timestamp that names no instant or lies more than ten minutes from
/// `now`; no session under the token, or one that is not valid at `now`; a
/// signature over timestamp and token that fails under the session's key.
pub open spec fn authentication_problem(
    model: SignatureAuthorizationModel,
    session: Option<Session>,
    now: int,
) -> Option<(ErrorKind, Seq<char>)> {
    if !recent(model.timestamp@, now, FRESHNESS_WINDOW_SECONDS as int) {
        Some((ErrorKind::Unauthorized, "Authorization timestamp out of range"@))
    } else if !(session matches Some(s) && s.token@ == model.token@ && s@.valid_at(now)) {
        Some((ErrorKind::Unauthorized, "Token not found"@))
    } else if !signature_valid(
        session->0.public_key->0@,
        model.signature@,
        model.timestamp@ + model.token@,
    ) {
        Some((ErrorKind::Invalid, "Invalid signature"@))
    } else {
        None
    }
}

/// Authenticates a signed request at `now` against the session that the
/// store holds under the request's token.
pub fn try_authenticate_at(model: &SignatureAuthorizationModel, session: Option<&Session>, now: i64) -> (r:
    Result<AuthenticatedUser, WebError>)
    ensures
        match r {
            Ok(user) => {
                &&& authentication_problem(*model, owned(session), now as int) is None
                &&& session matches Some(s) && user.user_id == s.user_id
                &&& user.token@ == model.token@
            },
            Err(e) => authentication_problem(*model, owned(session), now as int) == Some(e@),
        },
        session matches Some(s) && s.expires_at <= now ==> (r matches Err(e) && e@.0
            == ErrorKind::Unauthorized),
{
    if !is_recent_at(model.timestamp.as_str(), now, FRESHNESS_WINDOW_SECONDS) {
        return Err(WebError::Unauthorized(String::from_str("Authorization timestamp out of range")));
    }
    let s = match session {
        Some(s) => s,
        None => {
            return Err(WebError::Unauthorized(String::from_str("Token not found")));
        },
    };
    if !same_text(s.token.as_str(), model.token.as_str()) || !s.is_valid(now) {
        return Err(WebError::Unauthorized(String::from_str("Token not found")));
    }
    let key = match &s.public_key {
        Some(key) => key,
        None => {
            return Err(WebError::Unauthorized(String::from_str("Token not found")));
        },
    };
    let message = concat(model.timestamp.as_str(), model.token.as_str());
    if !verify(key, model.signature.as_str(), message.as_str()) {
        return Err(WebError::Invalid(String::from_str("Invalid signature")));
    }
    Ok(AuthenticatedUser { user_id: s.user_id, token: model.token.clone() })
}

/// Authenticates a signed request now. Whatever the clock says, a request
/// without a session under its token is refused, and so is one whose
/// timestamp names no instant.
pub fn try_authenticate(model: &SignatureAuthorizationModel, session: Option<&Session>) -> (r: Result<
    AuthenticatedUser,
    WebError,
>)
    ensures
        exists|now: i64|
            match r {
                Ok(user) => {
                    &&& #[trigger] authentication_problem(*model, owned(session), now as int) is None
                    &&& session matches Some(s) && user.user_id == s.user_id
                    &&& user.token@ == model.token@
                },
                Err(e) => authentication_problem(*model, owned(session), now as int) == Some(e@),
            },
        session is None ==> r is Err,
{
    let now = now_seconds();
    try_authenticate_at(model, session, now)
}

/// Why a session cannot be rotated for `user`: the store no longer holds it
/// with its key, which a concurrent refresh of the same token brings
/// about.
pub open spec fn rotation_problem(user: AuthenticatedUser, current: Option<Session>) -> Option<
    (ErrorKind, Seq<char>),
> {
    if !(current matches Some(s) && s.token@ == user.token@ && s.user_id == user.user_id
        && s.public_key is Some) {
        Some((ErrorKind::Store, "Session to refresh not found"@))
    } else {
        None
    }
}

/// Rotates the session of `user` at `now`: `current` is the row that the
/// store holds under the user's token, read inside the transaction that
/// will write both results. The old session gives up its key to the new
/// one, named by `token` and valid for thirty days.
pub fn rotate_session(user: &AuthenticatedUser, current: Option<Session>, now: i64, token: String) -> (r:
    Result<Rotation, WebError>)
    ensures
        match r {
            Ok(x) => {
                &&& rotation_problem(*user, current) is None
                &&& current matches Some(s) && x.retired@ == s@.invalidated(now as int) && x.issued@
                    == (SessionView {
                    token: token@,
                    user_id: s.user_id as int,
                    public_key: key_text(s.public_key),
                    expires_at: expiry_from(now as int),
                })
            },
            Err(e) => rotation_problem(*user, current) == Some(e@),
        },
{
    let mut retired = match current {
        Some(s) => s,
        None => {
            return Err(WebError::Store(String::from_str("Session to refresh not found")));
        },
    };
    if !same_text(retired.token.as_str(), user.token.as_str()) || retired.user_id != user.user_id {
        return Err(WebError::Store(String::from_str("Session to refresh not found")));
    }
    let key = match &retired.public_key {
        Some(key) => key.duplicate(),
        None => {
            return Err(WebError::Store(String::from_str("Session to refresh not found")));
        },
    };
    let issued = Session::issue(retired.user_id, key, token, now);
    retired.invalidate(now);
    Ok(Rotation { retired, issued })
}

/// Why a refresh is refused at `now`: the request does not authenticate
/// against `seen`, the session as read before the transaction, or the
/// session cannot be rotated as `current`, the session as read inside it.
pub open spec fn refresh_problem(
    model: SignatureAuthorizationModel,
    seen: Option<Session>,
    current: Option<Session>,
    now: int,
) -> Option<(ErrorKind, Seq<char>)> {
    match authentication_problem(model, seen, now) {
        Some(problem) => Some(problem),
        None => rotation_problem(
            AuthenticatedUser { user_id: seen->0.user_id, token: model.token },
            current,
        ),
    }
}

/// Decides a refresh at `now`, the new session to be named by `token`.
pub fn refresh_at(
    model: &SignatureAuthorizationModel,
    seen: Option<&Session>,
    current: Option<Session>,
    now: i64,
    token: String,
) -> (r: Result<Rotation, WebError>)
    ensures
        match r {
            Ok(x) => {
                &&& refresh_problem(*model, owned(seen), current, now as int) is None
                &&& current matches Some(s) && x.retired@ == s@.invalidated(now as int) && x.issued@
                    == (SessionView {
                    token: token@,
                    user_id: s.user_id as int,
                    public_key: key_text(s.public_key),
                    expires_at: expiry_from(now as int),
                })
            },
            Err(e) => refresh_problem(*model, owned(seen), current, now as int) == Some(e@),
        },
{
    match try_authenticate_at(model, seen, now) {
        Ok(user) => {
            assert(rotation_problem(user, current) == rotation_problem(
                AuthenticatedUser { user_id: seen->0.user_id, token: model.token },
                current,
            ));
            rotate_session(&user, current, now, token)
        },
        Err(e) => Err(e),
    }
}

/// Decides a refresh now, under a fresh token that is drawn once the
/// request has authenticated. Beyond the refusals of `refresh_at`, the
/// refresh fails where the random source does.
pub fn try_refresh(model: &SignatureAuthorizationModel, seen: Option<&Session>, current: Option<Session>) -> (r:
    Result<Rotation, WebError>)
    ensures
        exists|now: i64|
            match r {
                Ok(x) => {
                    &&& #[trigger] refresh_problem(*model, owned(seen), current, now as int) is None
                    &&& is_session_token(x.issued.token@)
                    &&& current matches Some(s) && x.retired@ == s@.invalidated(now as int)
                        && x.issued@ == (SessionView {
                        token: x.issued.token@,
                        user_id: s.user_id as int,
                        public_key: key_text(s.public_key),
                        expires_at: expiry_from(now as int),
                    })
                },
                Err(e) => {
                    ||| refresh_problem(*model, owned(seen), current, now as int) == Some(e@)
                    ||| authentication_problem(*model, owned(seen), now as int) is None && e@ == (
                        ErrorKind::Store,
                        "No session token could be drawn"@,
                    )
                },
            },
        seen is None ==> r is Err,
{
    let now = now_seconds();
    let user = match try_authenticate_at(model, seen, now) {
        Ok(user) => user,
        Err(e) => {
            assert(refresh_problem(*model, owned(seen), current, now as int) == Some(e@));
            return Err(e);
        },
    };
    let r = match gen_session_token() {
        Some(token) => rotate_session(&user, current, now, token),
        None => Err(WebError::Store(String::from_str("No session token could be drawn"))),
    };
    proof {
        assert(rotation_problem(user, current) == rotation_problem(
            AuthenticatedUser { user_id: seen->0.user_id, token: model.token },
            current,
        ));
        if r is Ok {
            assert(refresh_problem(*model, owned(seen), current, now as int) is None);
        }
    }
    r
}

/// Decides a sign-out at `now`: the session as it is to be stored,
/// invalidated, where the request authenticates against it.
pub fn sign_out_at(model: &SignatureAuthorizationModel, session: Option<Session>, now: i64) -> (r: Result<
    Session,
    WebError,
>)
    ensures
        match r {
            Ok(s) => {
                &&& authentication_problem(*model, session, now as int) is None
                &&& session matches Some(before) && s@ == before@.invalidated(now as int)
                &&& !s@.valid_at(now as int)
            },
            Err(e) => authentication_problem(*model, session, now as int) == Some(e@),
        },
{
    match try_authenticate_at(model, session.as_ref(), now) {
        Ok(_) => match session {
            Some(mut s) => {
                s.invalidate(now);
                Ok(s)
            },
            None => Err(WebError::Unauthorized(String::from_str("Token not found"))),
        },
        Err(e) => Err(e),
    }
}

/// A session that has ended authenticates no request: at its end and at
/// every later instant the answer is unauthorized, whatever the request
/// holds.
pub proof fn law_expired_session_is_rejected(model: SignatureAuthorizationModel, session: Session, now: int)
    requires
        session.expires_at <= now,
    ensures
        authentication_problem(model, Some(session), now) matches Some(problem) && problem.0
            == ErrorKind::Unauthorized,
{
}

/// Of two refreshes of one session only the first can succeed. Once a
/// session was retired at `at`, a request under its token authenticates at
/// no instant; a refresh that had authenticated before fails when it comes
/// to rotate the session; so no refresh that finds the retired session
/// succeeds, and the key is carried forward once.
pub proof fn law_refresh_succeeds_once(
    model: SignatureAuthorizationModel,
    user: AuthenticatedUser,
    seen: Option<Session>,
    retired: Session,
    before: SessionView,
    at: int,
    now: int,
)
    requires
        retired@ == before.invalidated(at),
    ensures
        authentication_problem(model, Some(retired), now) is Some,
        rotation_problem(user, Some(retired)) == Some(
            (ErrorKind::Store, "Session to refresh not found"@),
        ),
        refresh_problem(model, seen, Some(retired), now) is Some,
{
}

/// A registration within the length bounds succeeds while the username is
/// free, and once the username is among the registered ones a registration
/// under it fails with a conflict.
pub proof fn law_registration_is_unique(username: Seq<char>, password: Seq<char>, registered: Set<Seq<char>>)
    requires
        within_bounds(username, password),
    ensures
        !registered.contains(username) ==> registration_problem(
            username,
            password,
            registered.contains(username),
        ) is None,
        registration_problem(username, password, registered.insert(username).contains(username))
            == Some((ErrorKind::Conflict, "Given username is taken"@)),
{
}

/// A user who registered signs in: with lengths in bounds, a signature
/// that verifies, the credential stored under the username and a password
/// that matches its hash, the sign-in is not refused.
pub proof fn law_registered_user_signs_in(model: SignInModel, stored: Credential)
    requires
        within_bounds(model.username@, model.password@),
        signature_valid(model.public_key@, model.signature@, model.timestamp@ + model.username@),
        stored.username@ == model.username@,
    ensures
        sign_in_problem(model, Some(stored), true) is None,
        sign_in_problem(model, Some(stored), false) == Some(
            (ErrorKind::Unauthorized, "Invalid credentials"@),
        ),
        sign_in_problem(model, None, true) == sign_in_problem(model, Some(stored), false),
{
}

} // verus!
