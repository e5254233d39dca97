//! Random choices. The only source of chance in the library.
use vstd::prelude::*;
use rand::Rng;

verus! {

/// A uniformly random index below `n`, drawn from the thread-local generator.
///
/// Calls `rand::thread_rng()` and `Rng::gen_range(0..n)`. What is claimed of
/// them: the result lies in the range (rand's documentation), and the call
/// does not panic because the range is not empty. Which value comes out is
/// chance and is not stated.
#[verifier::external_body]
pub(crate) fn random_index(n: usize) -> (r: usize)
    requires
        n > 0,
    ensures
        r < n,
{
    rand::thread_rng().gen_range(0..n)
}

} // verus!
