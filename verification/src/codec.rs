//! Encodings at the edge of the protocol: base64, UTF-8 and HTML entities.

use vstd::prelude::*;
use vstd::utf8::{decode_utf8, valid_utf8};

verus! {

/// The bytes that standard, padded base64 text stands for, or none where
/// the text is not such an encoding.
pub uninterp spec fn base64_decoded(text: Seq<char>) -> Option<Seq<u8>>;

/// The bytes that base64 text in the URL-safe alphabet stands for, or none
/// where the text is not such an encoding.
pub uninterp spec fn base64url_decoded(text: Seq<char>) -> Option<Seq<u8>>;

/// The standard, padded base64 text of `bytes`.
pub uninterp spec fn base64_encoded(bytes: Seq<u8>) -> Seq<char>;

/// The text with every HTML entity replaced by the character it names, or
/// none where the text holds a malformed or unknown entity.
pub uninterp spec fn html_decoded(text: Seq<char>) -> Option<Seq<char>>;

/// Calls `base64::decode`. The contract claims only that the outcome is a
/// function of the text.
#[verifier::external_body]
pub(crate) fn base64_decode(text: &str) -> (r: Option<Vec<u8>>)
    ensures
        match r {
            Some(bytes) => base64_decoded(text@) == Some(bytes@),
            None => base64_decoded(text@) is None,
        },
{
    match base64::decode(text) {
        Ok(bytes) => Some(bytes),
        Err(_) => None,
    }
}

/// Calls `base64::decode_config` with `base64::URL_SAFE`. The contract
/// claims only that the outcome is a function of the text.
#[verifier::external_body]
pub(crate) fn base64url_decode(text: &str) -> (r: Option<Vec<u8>>)
    ensures
        match r {
            Some(bytes) => base64url_decoded(text@) == Some(bytes@),
            None => base64url_decoded(text@) is None,
        },
{
    match base64::decode_config(text, base64::URL_SAFE) {
        Ok(bytes) => Some(bytes),
        Err(_) => None,
    }
}

/// Calls `base64::encode`. The contract claims only that the text is a
/// function of the bytes.
#[verifier::external_body]
pub(crate) fn base64_encode(bytes: &Vec<u8>) -> (r: String)
    ensures
        r@ == base64_encoded(bytes@),
{
    base64::encode(bytes)
}

/// Calls `String::from_utf8`: the text that the bytes encode where they are
/// valid UTF-8, and nothing where they are not.
#[verifier::external_body]
pub(crate) fn utf8_text(bytes: Vec<u8>) -> (r: Option<String>)
    ensures
        match r {
            Some(text) => valid_utf8(bytes@) && text@ == decode_utf8(bytes@),
            None => !valid_utf8(bytes@),
        },
{
    match String::from_utf8(bytes) {
        Ok(text) => Some(text),
        Err(_) => None,
    }
}

/// Calls `htmlescape::decode_html`. The contract claims only that the
/// outcome is a function of the text.
#[verifier::external_body]
pub(crate) fn html_decode(text: &str) -> (r: Option<String>)
    ensures
        match r {
            Some(plain) => html_decoded(text@) == Some(plain@),
            None => html_decoded(text@) is None,
        },
{
    match htmlescape::decode_html(text) {
        Ok(plain) => Some(plain),
        Err(_) => None,
    }
}

/// A title as plain text: its entities decoded, or the title as it stands
/// where it does not decode.
pub open spec fn plain_text(title: Seq<char>) -> Seq<char> {
    match html_decoded(title) {
        Some(plain) => plain,
        None => title,
    }
}

/// Decodes the HTML entities of `title`; a title that does not decode is
/// returned unchanged.
pub fn plain_title(title: &str) -> (r: String)
    ensures
        r@ == plain_text(title@),
{
    match html_decode(title) {
        Some(plain) => plain,
        None => title.to_owned(),
    }
}

} // verus!
