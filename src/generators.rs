//! Random session keys.

use vstd::prelude::*;
use rand::Rng;

verus! {

/// Number of characters in a session key.
pub const KEY_LEN: usize = 30;

/// An ASCII letter or digit.
pub open spec fn is_alphanumeric(c: char) -> bool {
    ('A' <= c && c <= 'Z') || ('a' <= c && c <= 'z') || ('0' <= c && c <= '9')
}

/// The shape of every key the server issues: `KEY_LEN` ASCII letters and
/// digits.
pub open spec fn is_session_key(k: Seq<char>) -> bool {
    &&& k.len() == KEY_LEN
    &&& forall|i: int| 0 <= i < k.len() ==> is_alphanumeric(#[trigger] k[i])
}

/// A random string of `len` ASCII letters and digits.
///
/// Relies on rand's `thread_rng` sampled through `distributions::Alphanumeric`,
/// whose source draws each byte from `A-Z`, `a-z` and `0-9`, and on `take`
/// yielding exactly `len` of them from that endless iterator. The draw is
/// random, so nothing else is stated.
#[verifier::external_body]
pub fn alphanumeric(len: usize) -> (r: String)
    ensures
        r@.len() == len,
        forall|i: int| 0 <= i < len ==> is_alphanumeric(#[trigger] r@[i]),
{
    rand::thread_rng().sample_iter(&rand::distributions::Alphanumeric).take(len).map(char::from).collect()
}

/// A fresh random session key.
pub fn generate_key() -> (r: crate::types::Key)
    ensures
        is_session_key(r@),
{
    crate::types::Key(alphanumeric(KEY_LEN))
}

} // verus!
