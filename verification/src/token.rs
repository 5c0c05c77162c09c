//! Session tokens: 64 bytes from the system's secure random source, in
//! base64.

use vstd::prelude::*;
use crate::codec::{base64_encode, base64_encoded};

verus! {

/// The number of random bytes behind a session token.
pub const TOKEN_BYTES: usize = 64;

/// Fills `count` bytes with `ring::rand::SecureRandom::fill` on a fresh
/// `ring::rand::SystemRandom`. The bytes differ from call to call; the
/// contract claims their number, and nothing where the source fails.
#[verifier::external_body]
pub(crate) fn random_bytes(count: usize) -> (r: Option<Vec<u8>>)
    ensures
        r matches Some(bytes) ==> bytes.len() == count,
{
    let mut buffer = vec![0u8; count];
    match ring::rand::SecureRandom::fill(&ring::rand::SystemRandom::new(), &mut buffer) {
        Ok(()) => Some(buffer),
        Err(_) => None,
    }
}

/// Whether `token` is the base64 text of some 64 bytes.
pub open spec fn is_session_token(token: Seq<char>) -> bool {
    exists|bytes: Seq<u8>| bytes.len() == TOKEN_BYTES && token == #[trigger] base64_encoded(bytes)
}

/// Encodes random bytes as a session token.
pub fn token_of(bytes: &Vec<u8>) -> (token: String)
    ensures
        token@ == base64_encoded(bytes@),
        bytes.len() == TOKEN_BYTES ==> is_session_token(token@),
{
    base64_encode(bytes)
}

/// Draws a fresh session token, or nothing where the random source fails.
pub fn gen_session_token() -> (r: Option<String>)
    ensures
        r matches Some(token) ==> is_session_token(token@),
{
    match random_bytes(TOKEN_BYTES) {
        Some(bytes) => Some(token_of(&bytes)),
        None => None,
    }
}

} // verus!
