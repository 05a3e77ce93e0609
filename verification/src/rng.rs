//! The library's single source of randomness.

use rand::Rng;
use vstd::prelude::*;

verus! {

/// Relies on `rand::thread_rng` and `rand::Rng::gen_range`: sampling the
/// inclusive range `lo..=hi`, which is non-empty because `lo <= hi`, returns
/// a value between the two bounds and does not panic.
#[verifier::external_body]
pub(crate) fn random_in_range(lo: u16, hi: u16) -> (r: u16)
    requires
        lo <= hi,
    ensures
        lo <= r <= hi,
{
    rand::thread_rng().gen_range(lo..=hi)
}

} // verus!
