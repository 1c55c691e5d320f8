use vstd::prelude::*;
use rand::distr::SampleString;

verus! {

#[verifier::external_type_specification]
#[verifier::external_body]
pub struct ExSystemTime(std::time::SystemTime);

/// Length of every session token and ticket.
pub const TOKEN_LEN: usize = 32;

/// An ASCII letter or digit.
pub open spec fn is_alphanumeric(c: char) -> bool {
    ('a' <= c && c <= 'z') || ('A' <= c && c <= 'Z') || ('0' <= c && c <= '9')
}

/// The shape of a token: exactly 32 ASCII letters and digits.
pub open spec fn is_token(t: Seq<char>) -> bool {
    t.len() == TOKEN_LEN && forall|i: int| 0 <= i < t.len() ==> is_alphanumeric(#[trigger] t[i])
}

/// Relies on rand's `Alphanumeric` distribution sampled from the thread-local
/// generator: `sample_string` yields `len` characters, each an ASCII letter or digit.
#[verifier::external_body]
fn sample_alphanumeric(len: usize) -> (r: String)
    ensures
        r@.len() == len,
        forall|i: int| 0 <= i < r@.len() ==> is_alphanumeric(#[trigger] r@[i]),
{
    rand::distr::Alphanumeric.sample_string(&mut rand::rng(), len)
}

/// Relies on `SystemTime::now`: the current wall-clock time.
#[verifier::external_body]
fn system_now() -> (r: std::time::SystemTime) {
    std::time::SystemTime::now()
}

/// Relies on `SystemTime::duration_since(UNIX_EPOCH)`: whole seconds since the
/// epoch, or nothing for a time before it.
#[verifier::external_body]
fn seconds_since_epoch(t: &std::time::SystemTime) -> (r: Option<u64>) {
    t.duration_since(std::time::UNIX_EPOCH).ok().map(|d| d.as_secs())
}

/// Generates a random alphanumeric 32-character token.
pub fn random_token() -> (r: String)
    ensures
        is_token(r@),
{
    sample_alphanumeric(TOKEN_LEN)
}

/// A 32-bit timestamp from a count of seconds since the epoch: the low 32 bits,
/// or zero for a clock set before the epoch.
pub fn timestamp_from(seconds: Option<u64>) -> (r: u32)
    ensures
        r == match seconds {
            Some(s) => (s % 0x1_0000_0000) as u32,
            None => 0u32,
        },
{
    match seconds {
        Some(s) => (s % 0x1_0000_0000) as u32,
        None => 0,
    }
}

/// The current UNIX timestamp in seconds.
pub fn current_time() -> (r: u32) {
    let now = system_now();
    timestamp_from(seconds_since_epoch(&now))
}

} // verus!
