//! The process-wide random source, behind trusted wrappers. Nothing is
//! assumed about which value comes back, only that it lies in the stated
//! range or set; the verified callers hold for every outcome.

use vstd::prelude::*;
use rand::Rng;
use rand::seq::SliceRandom;
use crate::point::Point;

verus! {

/// Relies on rand::Rng::gen_range over `0..bound`: a value uniformly below
/// `bound`. It panics only on an empty range, which the precondition rules
/// out.
#[verifier::external_body]
pub(crate) fn sample_below(bound: u32) -> (r: u32)
    requires
        bound >= 1,
    ensures
        r < bound,
{
    rand::thread_rng().gen_range(0..bound)
}

/// Relies on rand::seq::SliceRandom::choose: `Some` of a uniformly chosen
/// element exactly when the slice is non-empty, `None` when it is empty.
#[verifier::external_body]
pub(crate) fn choose_point(points: &Vec<Point>) -> (r: Option<Point>)
    ensures
        r is Some <==> points@.len() > 0,
        r is Some ==> exists|i: int| 0 <= i < points@.len() && r->Some_0 == points@[i],
{
    points.choose(&mut rand::thread_rng()).copied()
}

} // verus!
