use vstd::prelude::*;
use rand::Rng;

verus! {

/// Relies on rand::Rng::gen_range over the range `0..n`: it panics only on
/// an empty range and draws a uniformly-distributed value inside the range,
/// so with `n > 0` it returns some integer at least 0 and below `n`.
#[verifier::external_body]
pub(crate) fn rand_below(n: i32) -> (r: i32)
    requires
        n > 0,
    ensures
        0 <= r < n,
{
    rand::thread_rng().gen_range(0..n)
}

} // verus!
