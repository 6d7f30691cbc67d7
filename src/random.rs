//! Random items: fixed-length strings over the alphanumeric alphabet.

use vstd::prelude::*;
use rand::distributions::Alphanumeric;
use rand::Rng;

verus! {

/// `c` is an ASCII digit or an ASCII upper- or lower-case letter.
pub open spec fn is_alphanumeric(c: char) -> bool {
    ||| '0' <= c <= '9'
    ||| 'A' <= c <= 'Z'
    ||| 'a' <= c <= 'z'
}

/// Every character of `s` is alphanumeric.
pub open spec fn all_alphanumeric(s: Seq<char>) -> bool {
    forall|i: int| 0 <= i < s.len() ==> is_alphanumeric(#[trigger] s[i])
}

/// Relies on rand's `thread_rng().sample_iter(&Alphanumeric).take(length)`:
/// the sampler never ends, so exactly `length` bytes come out, each one drawn
/// from `A`-`Z`, `a`-`z` and `0`-`9`, and each byte becomes the same char.
/// The thread's generator panics only if the operating system's random source
/// cannot seed it.
#[verifier::external_body]
fn sample_alphanumeric(length: usize) -> (r: String)
    ensures
        r@.len() == length,
        all_alphanumeric(r@),
{
    rand::thread_rng().sample_iter(&Alphanumeric).take(length).map(char::from).collect()
}

/// A fresh random string of `length` alphanumeric characters; two calls may
/// differ.
pub fn random_string(length: usize) -> (r: String)
    ensures
        r@.len() == length,
        all_alphanumeric(r@),
{
    sample_alphanumeric(length)
}

} // verus!
