//! Verification of request signatures: RSA PKCS#1 v1.5 with SHA-512, under
//! a public key given by its modulus and exponent.

use vstd::prelude::*;
use vstd::utf8::encode_utf8;
use crate::codec::{base64_decode, base64_decoded, base64url_decode, base64url_decoded};

verus! {

/// A public-key descriptor as clients send it: algorithm and key type, and
/// the exponent and modulus in URL-safe base64.
#[derive(Debug)]
pub struct JWK {
    pub alg: String,
    pub kty: String,
    pub e: String,
    pub n: String,
}

/// The mathematical content of a [`JWK`].
pub struct KeyText {
    pub alg: Seq<char>,
    pub kty: Seq<char>,
    pub e: Seq<char>,
    pub n: Seq<char>,
}

impl View for JWK {
    type V = KeyText;

    open spec fn view(&self) -> KeyText {
        KeyText { alg: self.alg@, kty: self.kty@, e: self.e@, n: self.n@ }
    }
}

impl JWK {
    /// A copy of this key.
    pub fn duplicate(&self) -> (r: JWK)
        ensures
            r@ == self@,
    {
        JWK { alg: self.alg.clone(), kty: self.kty.clone(), e: self.e.clone(), n: self.n.clone() }
    }
}

/// Whether `signature` is a valid RSA PKCS#1 v1.5 signature with SHA-512 of
/// `message` under the key with modulus `n` and exponent `e`, both
/// big-endian, the modulus between 2048 and 8192 bits long.
pub uninterp spec fn rsa_pkcs1_sha512_valid(n: Seq<u8>, e: Seq<u8>, message: Seq<u8>, signature: Seq<u8>) -> bool;

/// Calls `ring::signature::RsaPublicKeyComponents::verify` with the
/// parameters `RSA_PKCS1_2048_8192_SHA512` and tells success from failure.
/// The contract claims only that the outcome is a function of the four byte
/// strings.
#[verifier::external_body]
pub(crate) fn rsa_verify(n: &Vec<u8>, e: &Vec<u8>, message: &[u8], signature: &Vec<u8>) -> (b: bool)
    ensures
        b == rsa_pkcs1_sha512_valid(n@, e@, message@, signature@),
{
    let key = ring::signature::RsaPublicKeyComponents { n: n.as_slice(), e: e.as_slice() };
    key.verify(&ring::signature::RSA_PKCS1_2048_8192_SHA512, message, signature.as_slice()).is_ok()
}

/// Whether the base64 text `signature` signs the UTF-8 bytes of `message`
/// under `key`. A signature, modulus or exponent that does not decode makes
/// the signature invalid.
pub open spec fn signature_valid(key: KeyText, signature: Seq<char>, message: Seq<char>) -> bool {
    match (base64_decoded(signature), base64url_decoded(key.n), base64url_decoded(key.e)) {
        (Some(s), Some(n), Some(e)) => rsa_pkcs1_sha512_valid(n, e, encode_utf8(message), s),
        _ => false,
    }
}

/// Tests whether `signature` signs `signature_message` under
/// `jwk_public_key`.
pub fn verify(jwk_public_key: &JWK, signature: &str, signature_message: &str) -> (b: bool)
    ensures
        b == signature_valid(jwk_public_key@, signature@, signature_message@),
{
    let signature_bytes = match base64_decode(signature) {
        Some(bytes) => bytes,
        None => {
            return false;
        },
    };
    let n = match base64url_decode(jwk_public_key.n.as_str()) {
        Some(bytes) => bytes,
        None => {
            return false;
        },
    };
    let e = match base64url_decode(jwk_public_key.e.as_str()) {
        Some(bytes) => bytes,
        None => {
            return false;
        },
    };
    rsa_verify(&n, &e, signature_message.as_bytes(), &signature_bytes)
}

} // verus!
