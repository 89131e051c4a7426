//! Randomness at the library's edge: the commands pick one of several
//! flavour messages at random.

use vstd::prelude::*;

verus! {

/// Relies on rand::Rng::gen_range over `0..len`, on the thread-local
/// generator: it panics on an empty range and otherwise returns a value
/// drawn from within the range. Nothing more can be said of a random
/// draw, so callers must be correct for every index below `len`.
#[verifier::external_body]
pub(crate) fn pick_index(len: usize) -> (r: usize)
    requires
        len > 0,
    ensures
        r < len,
{
    rand::Rng::gen_range(&mut rand::thread_rng(), 0..len)
}

} // verus!
