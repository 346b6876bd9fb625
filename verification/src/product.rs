use itertools::Itertools;
use vstd::prelude::*;

verus! {

/// Every pair of an item of `a` with an item of `b`, the items of `a` varying slowest.
pub open spec fn spec_pairs(a: Seq<u32>, b: Seq<u32>) -> Seq<(u32, u32)> {
    Seq::new(a.len() * b.len(), |i: int| (a[i / b.len() as int], b[i % b.len() as int]))
}

/// Calls `Itertools::cartesian_product` on the items of `a` and `b` and collects what
/// it yields.
///
/// Not proved: the adaptor walks `b` once for each item of `a`, in order, and
/// pairs that item with each item of `b`.
#[verifier::external_body]
pub(crate) fn pairs(a: &Vec<u32>, b: &Vec<u32>) -> (r: Vec<(u32, u32)>)
    requires
        a@.len() * b@.len() <= usize::MAX,
    ensures
        r@ == spec_pairs(a@, b@),
{
    a.iter().copied().cartesian_product(b.iter().copied()).collect()
}

} // verus!
