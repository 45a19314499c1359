//! The few values the library takes from the machine: random bytes, a
//! random install identity, and the clock. Each stands behind one trusted
//! wrapper; everything that consumes them is verified for every outcome.

use vstd::prelude::*;
use rand::Rng;
use rand::distributions::Alphanumeric;
use std::time::SystemTime;
use std::time::UNIX_EPOCH;

verus! {

/// An ASCII letter or decimal digit.
pub open spec fn is_ascii_alphanumeric(c: char) -> bool {
    ('A' as u32 <= c as u32 && c as u32 <= 'Z' as u32)
        || ('a' as u32 <= c as u32 && c as u32 <= 'z' as u32)
        || ('0' as u32 <= c as u32 && c as u32 <= '9' as u32)
}

/// Relies on rand's `Alphanumeric` distribution: every sampled byte is an
/// ASCII letter or digit; one hundred samples are taken.
#[verifier::external_body]
pub(crate) fn fresh_identity() -> (r: String)
    ensures
        r@.len() == 100,
        forall|i: int| 0 <= i < r@.len() ==> is_ascii_alphanumeric(r@[i]),
{
    rand::thread_rng().sample_iter(&Alphanumeric).take(100).map(char::from).collect()
}

/// Relies on rand's `Standard` distribution over `u8`: some byte; nothing
/// is promised of its value.
#[verifier::external_body]
pub(crate) fn random_byte() -> (r: u8) {
    rand::thread_rng().gen()
}

/// Relies on std's `SystemTime::now`: seconds since the Unix epoch, or
/// zero if the clock reads earlier than the epoch; nothing is promised of
/// the value.
#[verifier::external_body]
pub(crate) fn unix_time_secs() -> (r: u64) {
    match SystemTime::now().duration_since(UNIX_EPOCH) {
        Ok(d) => d.as_secs(),
        Err(_) => 0,
    }
}

} // verus!
