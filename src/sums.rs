//! Sums of integer sequences, and when their running totals stay
//! representable.

use vstd::prelude::*;

use crate::decimal::fits;

verus! {

/// The sum of a sequence, from the front.
pub open spec fn sum(xs: Seq<int>) -> int
    decreases xs.len(),
{
    if xs.len() == 0 {
        0
    } else {
        sum(xs.drop_last()) + xs.last()
    }
}

/// Every running total of `start` plus a prefix of `xs` can be held by a
/// decimal.
pub open spec fn running_fits(start: int, xs: Seq<int>) -> bool {
    forall|k: int| 0 <= k <= xs.len() ==> fits(start + #[trigger] sum(xs.take(k)))
}

/// Every running total of `xs`, starting from zero, can be held.
pub open spec fn sum_fits(xs: Seq<int>) -> bool {
    running_fits(0, xs)
}

pub proof fn lemma_sum_take_next(xs: Seq<int>, i: int)
    requires
        0 <= i < xs.len(),
    ensures
        sum(xs.take(i + 1)) == sum(xs.take(i)) + xs[i],
{
    assert(xs.take(i + 1).drop_last() =~= xs.take(i));
}

} // verus!
