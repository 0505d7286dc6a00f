//! Trusted access to the process RNG.  Word generation is verified against
//! these two contracts alone: nothing is assumed about which values come
//! back, only that they lie in the stated range.

use vstd::prelude::*;

verus! {

/// Relies on `rand::Rng::gen_range` over `0..bound` on the thread RNG:
/// the result lies in the half-open range, and the call panics only on an
/// empty range, which the precondition rules out.
#[verifier::external_body]
pub(crate) fn random_below(bound: usize) -> (r: usize)
    requires
        bound > 0,
    ensures
        r < bound,
{
    rand::Rng::gen_range(&mut rand::thread_rng(), 0..bound)
}

/// Relies on `rand::seq::index::sample`: it returns exactly `amount`
/// distinct indices from `0..length`, and panics only when
/// `amount > length`, which the precondition rules out.
#[verifier::external_body]
pub(crate) fn sample_indices(length: usize, amount: usize) -> (r: Vec<usize>)
    requires
        amount <= length,
    ensures
        r@.len() == amount,
        forall|i: int| 0 <= i < r@.len() ==> r@[i] < length,
        forall|i: int, j: int| 0 <= i < j < r@.len() ==> r@[i] != r@[j],
{
    rand::seq::index::sample(&mut rand::thread_rng(), length, amount).into_vec()
}

} // verus!
