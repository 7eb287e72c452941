//! Random strings, from the thread-local generator of the `rand` crate.
use vstd::prelude::*;
use rand::RngExt;
use crate::text::is_ascii_alnum;

verus! {

/// `length` characters drawn from `rand::distr::Alphanumeric`
/// (`rng().sample_iter(&Alphanumeric).take(length).map(char::from).collect()`).
/// Stated: the length, and that every character is an ASCII letter or digit,
/// which is the range the distribution documents. Which characters come out is chance.
#[verifier::external_body]
pub(crate) fn generate_string(length: usize) -> (r: String)
    ensures
        r@.len() == length,
        forall|k: int| 0 <= k < r@.len() ==> is_ascii_alnum(#[trigger] r@[k]),
{
    rand::rng().sample_iter(&rand::distr::Alphanumeric).take(length).map(char::from).collect()
}

/// A fresh password: fifteen random ASCII letters and digits.
pub fn new_password() -> (r: String)
    ensures
        r@.len() == 15,
        forall|k: int| 0 <= k < r@.len() ==> is_ascii_alnum(#[trigger] r@[k]),
{
    generate_string(15)
}

/// A number drawn uniformly from `0..bound` (`rng().random_range(0..bound)`).
/// Stated: it lies in the range; which one comes out is chance.
#[verifier::external_body]
pub(crate) fn random_below(bound: usize) -> (r: usize)
    requires
        bound > 0,
    ensures
        r < bound,
{
    rand::rng().random_range(0..bound)
}

/// `length` characters drawn from `rand::distr::Uniform::new_inclusive(low, high)`.
/// Stated: the length, and that every character lies in `low..=high`.
#[verifier::external_body]
pub(crate) fn sample_chars_inclusive(low: char, high: char, length: usize) -> (r: String)
    requires
        low <= high,
    ensures
        r@.len() == length,
        forall|k: int| 0 <= k < r@.len() ==> low <= #[trigger] r@[k] <= high,
{
    match rand::distr::Uniform::new_inclusive(low, high) {
        Ok(dist) => rand::rng().sample_iter(dist).take(length).collect(),
        Err(_) => String::new(),
    }
}

} // verus!
