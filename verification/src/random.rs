use vstd::prelude::*;
use rand::Rng;

verus! {

/// Relies on rand::Rng::gen_range over `min..max`: it returns a uniformly
/// distributed value of that half-open range, and panics when the range is
/// empty, so an empty range is excluded here. Nothing more can be promised
/// of a random draw than its bounds.
#[verifier::external_body]
pub fn random_range(min: usize, max: usize) -> (r: usize)
    requires
        min < max,
    ensures
        min <= r < max,
{
    let mut rng = rand::thread_rng();
    rng.gen_range(min..max)
}

} // verus!
