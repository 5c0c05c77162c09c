//! Profile changes: the rules on name and email.

use vstd::prelude::*;
use vstd::string::*;
use crate::error::{ErrorKind, WebError};
use crate::text::char_count;

verus! {

/// The greatest number of characters of a name and of an email address.
pub const MAX_PROFILE_CHARS: usize = 200;

/// The body of a profile change.
#[derive(Debug)]
pub struct ProfileModel {
    pub name: String,
    pub email: String,
}

/// How often `c` occurs in `s`.
pub open spec fn occurrences(s: Seq<char>, c: char) -> nat
    decreases s.len(),
{
    if s.len() == 0 {
        0
    } else {
        occurrences(s.drop_last(), c) + if s.last() == c {
            1nat
        } else {
            0nat
        }
    }
}

/// An email address is well-formed where it holds exactly one `@`, with at
/// least one character before it and one after it.
pub open spec fn well_formed_email(email: Seq<char>) -> bool {
    &&& occurrences(email, '@') == 1
    &&& email.first() != '@'
    &&& email.last() != '@'
}

/// What is wrong with a profile: the message of the first check that
/// fails, the name's first.
pub open spec fn profile_problem(name: Seq<char>, email: Seq<char>) -> Option<Seq<char>> {
    if name.len() == 0 {
        Some("Given name is empty"@)
    } else if name.len() > MAX_PROFILE_CHARS {
        Some("Given name is too long"@)
    } else if email.len() == 0 {
        Some("Given email is empty"@)
    } else if email.len() > MAX_PROFILE_CHARS {
        Some("Given email is too long"@)
    } else if !well_formed_email(email) {
        Some("Given email is malformed"@)
    } else {
        None
    }
}

/// Counts the occurrences of `c` in `s`.
pub fn count_char(s: &str, c: char) -> (n: usize)
    ensures
        n == occurrences(s@, c),
{
    let len = s.unicode_len();
    let mut n: usize = 0;
    let mut i: usize = 0;
    while i < len
        invariant
            i <= len,
            len == s@.len(),
            n <= i,
            n == occurrences(s@.take(i as int), c),
        decreases len - i,
    {
        assert(s@.take(i + 1).drop_last() =~= s@.take(i as int));
        if s.get_char(i) == c {
            n = n + 1;
        }
        i = i + 1;
    }
    assert(s@.take(len as int) =~= s@);
    n
}

impl ProfileModel {
    /// Checks name and email: neither empty, neither longer than 200
    /// characters, the email well-formed.
    pub fn validate(&self) -> (r: Option<WebError>)
        ensures
            match r {
                Some(e) => e@.0 == ErrorKind::Validation && profile_problem(self.name@, self.email@)
                    == Some(e@.1),
                None => profile_problem(self.name@, self.email@) is None,
            },
    {
        let name_chars = char_count(self.name.as_str());
        let email_chars = char_count(self.email.as_str());
        if name_chars == 0 {
            return Some(WebError::Validation(String::from_str("Given name is empty")));
        }
        if name_chars > MAX_PROFILE_CHARS {
            return Some(WebError::Validation(String::from_str("Given name is too long")));
        }
        if email_chars == 0 {
            return Some(WebError::Validation(String::from_str("Given email is empty")));
        }
        if email_chars > MAX_PROFILE_CHARS {
            return Some(WebError::Validation(String::from_str("Given email is too long")));
        }
        let email = self.email.as_str();
        let well_formed = count_char(email, '@') == 1 && email.get_char(0) != '@' && email.get_char(
            email_chars - 1,
        ) != '@';
        if !well_formed {
            return Some(WebError::Validation(String::from_str("Given email is malformed")));
        }
        None
    }
}

} // verus!
