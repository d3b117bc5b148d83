//! Secrets that identify users.

use rand::distributions::Alphanumeric;
use rand::{thread_rng, Rng};
use vstd::prelude::*;

verus! {

/// An ASCII letter or digit.
pub open spec fn is_ascii_alphanumeric(c: char) -> bool {
    ('a' <= c && c <= 'z') || ('A' <= c && c <= 'Z') || ('0' <= c && c <= '9')
}

/// `len` characters drawn with `thread_rng().sample_iter(&Alphanumeric)`
/// (rand 0.8), which yields ASCII letters and digits; nothing else is
/// claimed of them.
#[verifier::external_body]
fn random_alphanumeric(len: usize) -> (res: String)
    ensures
        res@.len() == len,
        forall|i: int| 0 <= i < res@.len() ==> is_ascii_alphanumeric(#[trigger] res@[i]),
{
    thread_rng().sample_iter(&Alphanumeric).take(len).map(char::from).collect()
}

/// The length of a user secret.
pub const SECRET_LEN: usize = 16;

/// A new random secret: 16 ASCII letters and digits.
pub fn generate_secret() -> (res: String)
    ensures
        res@.len() == SECRET_LEN,
        forall|i: int| 0 <= i < res@.len() ==> is_ascii_alphanumeric(#[trigger] res@[i]),
{
    random_alphanumeric(SECRET_LEN)
}

} // verus!
