//! Random draws from the thread-local generator of `rand`.

use vstd::prelude::*;
use rand::Rng;
use rand::seq::IndexedRandom;

verus! {

/// `rand::rng().random_range(lo..hi)`: a number drawn uniformly from `lo..hi`.
/// Nothing is claimed of which number comes out beyond its range.
#[verifier::external_body]
pub(crate) fn random_range(lo: u64, hi: u64) -> (r: u64)
    requires
        lo < hi,
    ensures
        lo <= r < hi,
{
    rand::rng().random_range(lo..hi)
}

/// `choices.choose(&mut rand::rng())`: one of `choices`, drawn uniformly.
/// Nothing is claimed of which one comes out beyond its being one of them.
#[verifier::external_body]
pub(crate) fn choose_one(choices: &[i32]) -> (r: i32)
    requires
        choices@.len() > 0,
    ensures
        choices@.contains(r),
{
    *choices.choose(&mut rand::rng()).unwrap()
}

} // verus!
