use vstd::prelude::*;
use vstd::utf8::{decode_utf8, valid_utf8};
use base64::Engine;

verus! {

#[verifier::external_type_specification]
#[verifier::external_body]
pub struct ExDecodeError(base64::DecodeError);

#[verifier::external_type_specification]
#[verifier::external_body]
pub struct ExRsaPrivateKey(rsa::RsaPrivateKey);

#[verifier::external_type_specification]
#[verifier::external_body]
pub struct ExRsaError(rsa::Error);

/// Why a submitted password could not be turned into plaintext.
#[derive(Clone, Copy, Debug, PartialEq, Eq, Structural)]
pub enum CredentialError {
    /// The payload is not valid standard base64.
    Malformed,
    /// The payload did not decrypt under the server's private key.
    DecryptionFailed,
}

/// The bytes that standard base64 (with padding) decodes a text to, if it is valid.
pub uninterp spec fn base64_decoded(text: Seq<char>) -> Option<Seq<u8>>;

/// Relies on base64's standard engine `decode`: the outcome depends on the text alone.
#[verifier::external_body]
fn base64_decode(text: &str) -> (r: Result<Vec<u8>, base64::DecodeError>)
    ensures
        match r {
            Ok(bytes) => base64_decoded(text@) == Some(bytes@),
            Err(_) => base64_decoded(text@) is None,
        },
{
    base64::prelude::BASE64_STANDARD.decode(text)
}

/// Relies on rsa's `RsaPrivateKey::decrypt` with PKCS#1 v1.5 padding; nothing is
/// assumed of its outcome.
#[verifier::external_body]
fn rsa_decrypt(key: &rsa::RsaPrivateKey, ciphertext: &Vec<u8>) -> (r: Result<Vec<u8>, rsa::Error>) {
    key.decrypt(rsa::Pkcs1v15Encrypt, ciphertext)
}

/// Relies on `String::from_utf8`: it accepts exactly the well-formed UTF-8
/// byte sequences and yields the characters they encode.
#[verifier::external_body]
fn utf8_string(bytes: Vec<u8>) -> (r: Option<String>)
    ensures
        match r {
            Some(s) => valid_utf8(bytes@) && s@ == decode_utf8(bytes@),
            None => !valid_utf8(bytes@),
        },
{
    String::from_utf8(bytes).ok()
}

/// The text that password bytes stand for: invalid UTF-8 reads as the empty
/// string, which matches no stored hash.
pub open spec fn text_of(bytes: Seq<u8>) -> Seq<char> {
    if valid_utf8(bytes) {
        decode_utf8(bytes)
    } else {
        Seq::empty()
    }
}

/// Reads password bytes as UTF-8, degrading to the empty string.
pub fn text_from_bytes(bytes: Vec<u8>) -> (r: String)
    ensures
        r@ == text_of(bytes@),
{
    match utf8_string(bytes) {
        Some(s) => s,
        None => String::new(),
    }
}

/// Turns the outcome of a decryption into the plaintext password.
pub fn finish_decryption(decrypted: Option<Vec<u8>>) -> (r: Result<String, CredentialError>)
    ensures
        match decrypted {
            Some(bytes) => r is Ok && r->Ok_0@ == text_of(bytes@),
            None => r == Err::<String, CredentialError>(CredentialError::DecryptionFailed),
        },
{
    match decrypted {
        Some(bytes) => Ok(text_from_bytes(bytes)),
        None => Err(CredentialError::DecryptionFailed),
    }
}

/// Decodes a client-submitted password: base64 first, then, if the client says
/// so, RSA decryption under the server's key.
pub fn decode_password(payload: &str, is_encrypted: bool, key: &rsa::RsaPrivateKey) -> (r: Result<
    String,
    CredentialError,
>)
    ensures
        base64_decoded(payload@) is None ==> r == Err::<String, CredentialError>(
            CredentialError::Malformed,
        ),
        base64_decoded(payload@) is Some && !is_encrypted ==> r is Ok && r->Ok_0@ == text_of(
            base64_decoded(payload@)->Some_0,
        ),
        base64_decoded(payload@) is Some && is_encrypted ==> r is Ok || r == Err::<
            String,
            CredentialError,
        >(CredentialError::DecryptionFailed),
{
    let decoded = match base64_decode(payload) {
        Ok(bytes) => bytes,
        Err(_) => return Err(CredentialError::Malformed),
    };
    if !is_encrypted {
        return Ok(text_from_bytes(decoded));
    }
    let decrypted = match rsa_decrypt(key, &decoded) {
        Ok(bytes) => Some(bytes),
        Err(_) => None,
    };
    finish_decryption(decrypted)
}

} // verus!
