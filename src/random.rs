use vstd::prelude::*;
use rand::Rng;

verus! {

/// Relies on rand's `Rng::gen_range` on `rand::thread_rng()`: a value drawn
/// from `0..n`. It panics only on an empty range, which `n > 0` rules out.
#[verifier::external_body]
pub(crate) fn uniform_below(n: u64) -> (r: u64)
    requires
        n > 0,
    ensures
        r < n,
{
    rand::thread_rng().gen_range(0..n)
}

} // verus!
