use rand::Rng;
use vstd::prelude::*;

verus! {

/// Relies on rand's `thread_rng` and `Rng::gen_range`: `gen_range(lo..=hi)`
/// samples uniformly from the inclusive range, panics only when the range is
/// empty, and always returns a value inside it. Nothing more is assumed: the
/// draw is fresh randomness, so two calls on the same bounds may differ.
#[verifier::external_body]
pub(crate) fn sample_in_range(lo: i64, hi: i64) -> (r: i64)
    requires
        lo <= hi,
    ensures
        lo <= r <= hi,
{
    rand::thread_rng().gen_range(lo..=hi)
}

} // verus!
