use vstd::prelude::*;

verus! {

#[verifier::external_type_specification]
#[verifier::external_body]
pub struct ExBcryptError(bcrypt::BcryptError);

/// What bcrypt's verification says of a plaintext against a stored hash:
/// `Some(b)` when the hash is well formed, `None` when it is rejected.
pub uninterp spec fn bcrypt_verdict(plain_text: Seq<char>, hashed: Seq<char>) -> Option<bool>;

/// A plaintext matches a stored hash when bcrypt verifies it without error.
pub open spec fn password_matches(plain_text: Seq<char>, hashed: Seq<char>) -> bool {
    bcrypt_verdict(plain_text, hashed) == Some(true)
}

/// Relies on bcrypt::hash at the default cost: a random salt is drawn, and the
/// hash it returns carries that cost and salt, so bcrypt::verify recomputes it
/// from the same plaintext.
#[verifier::external_body]
fn bcrypt_hash(plain_text: &str) -> (r: Result<String, bcrypt::BcryptError>)
    ensures
        r is Ok ==> bcrypt_verdict(plain_text@, r->Ok_0@) == Some(true),
{
    bcrypt::hash(plain_text, bcrypt::DEFAULT_COST)
}

/// Relies on bcrypt::verify: a malformed hash is an error, otherwise the
/// outcome depends on the plaintext and the hash alone.
#[verifier::external_body]
fn bcrypt_verify(plain_text: &str, hashed: &str) -> (r: Result<bool, bcrypt::BcryptError>)
    ensures
        match r {
            Ok(b) => bcrypt_verdict(plain_text@, hashed@) == Some(b),
            Err(_) => bcrypt_verdict(plain_text@, hashed@) is None,
        },
{
    bcrypt::verify(plain_text, hashed)
}

/// Hashes a password with a fresh salt; whatever hash comes back verifies
/// against the same plaintext.
pub fn hash_password(plain_text: &str) -> (r: Result<String, bcrypt::BcryptError>)
    ensures
        r is Ok ==> password_matches(plain_text@, r->Ok_0@),
{
    bcrypt_hash(plain_text)
}

/// Verifies a plaintext against a stored hash; a malformed hash never matches.
pub fn verify_password(plain_text: &str, hashed: &String) -> (r: bool)
    ensures
        r == password_matches(plain_text@, hashed@),
{
    match bcrypt_verify(plain_text, hashed.as_str()) {
        Ok(b) => b,
        Err(_) => false,
    }
}

} // verus!
