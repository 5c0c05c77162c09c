//! The user behind a request to the ranking service.

use vstd::prelude::*;
use vstd::string::*;
use crate::error::WebError;

verus! {

/// The id of the user that stands for requests without authentication.
pub const ANONYMOUS_USER_ID: i32 = -1;

/// A user as the authentication service describes it.
#[derive(Debug)]
pub struct UserData {
    pub user_id: i32,
    pub username: String,
    pub name: Option<String>,
    pub email: Option<String>,
    pub status: i32,
    pub created: i64,
    pub updated: i64,
}

/// A user together with the store handle that serves its request.
pub struct AuthenticatedConnection<C> {
    pub user: UserData,
    pub conn: C,
}

impl UserData {
    /// Whether this is the user that stands for requests without
    /// authentication, made at `now`.
    pub open spec fn is_anonymous_at(self, now: int) -> bool {
        &&& self.user_id == ANONYMOUS_USER_ID
        &&& self.username@ == "default"@
        &&& self.name is None
        &&& self.email is None
        &&& self.status == 0
        &&& self.created == now
        &&& self.updated == now
    }

    /// The user that stands for requests without authentication.
    pub fn anonymous(now: i64) -> (user: UserData)
        ensures
            user.is_anonymous_at(now as int),
    {
        UserData {
            user_id: ANONYMOUS_USER_ID,
            username: String::from_str("default"),
            name: None,
            email: None,
            status: 0,
            created: now,
            updated: now,
        }
    }
}

/// The user that a ranking query runs for: the authenticated one, or the
/// anonymous user where authentication failed.
pub fn query_user(authenticated: Result<UserData, WebError>, now: i64) -> (user: UserData)
    ensures
        match authenticated {
            Ok(found) => user == found,
            Err(_) => user.is_anonymous_at(now as int),
        },
{
    match authenticated {
        Ok(found) => found,
        Err(_) => UserData::anonymous(now),
    }
}

} // verus!
