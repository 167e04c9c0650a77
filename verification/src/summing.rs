//! Terminators that compose the extraction protocol inside other
//! terminators: business logic written in the terminator pattern, where every
//! result leaves by being thrown.

use vstd::prelude::*;

use crate::payload::Payload;
use crate::payload::PayloadKind;
use crate::payload::Termination;
use crate::protocol::catastrophe;
use crate::protocol::catastrophe4;
use crate::terminator::DisasterWaitingToHappen;

verus! {

/// The sum of the integers in the half-open range `lo..hi`.
pub open spec fn range_sum(lo: int, hi: int) -> int
    decreases hi - lo,
{
    if lo >= hi {
        0
    } else {
        lo + range_sum(lo + 1, hi)
    }
}

/// Extending a range by one on the right adds the new endpoint to its sum.
pub proof fn lemma_range_sum_extend(lo: int, hi: int)
    requires
        lo <= hi,
    ensures
        range_sum(lo, hi + 1) == range_sum(lo, hi) + hi,
    decreases hi - lo,
{
    if lo == hi {
        assert(range_sum(lo, lo + 1) == lo + range_sum(lo + 1, lo + 1));
    } else {
        lemma_range_sum_extend(lo + 1, hi);
        assert(range_sum(lo, hi + 1) == lo + range_sum(lo + 1, hi + 1));
    }
}

/// A range's sum lies between its element count times its smallest element
/// and its element count times its largest.
pub proof fn lemma_range_sum_bounds(lo: int, hi: int)
    requires
        lo <= hi,
    ensures
        (hi - lo) * lo <= range_sum(lo, hi),
        range_sum(lo, hi) <= (hi - lo) * (hi - 1),
    decreases hi - lo,
{
    if lo < hi {
        lemma_range_sum_bounds(lo + 1, hi);
        assert(lo + (hi - lo - 1) * (lo + 1) >= (hi - lo) * lo) by (nonlinear_arith)
            requires
                lo < hi;
        assert(lo + (hi - lo - 1) * (hi - 1) <= (hi - lo) * (hi - 1)) by (nonlinear_arith)
            requires
                lo < hi;
    } else {
        assert((hi - lo) * lo == 0 && (hi - lo) * (hi - 1) == 0) by (nonlinear_arith)
            requires
                lo == hi;
    }
}

/// A terminator that throws the sum of a thrown range: it invokes an inner
/// terminator inside the extraction protocol, expecting an integer range,
/// walks the extracted range, and throws the total. A payload of any other
/// kind is not its business: the inner termination keeps propagating
/// unchanged. The inner range must be nonempty.
pub struct RangeSummer<F: DisasterWaitingToHappen> {
    /// The terminator expected to throw the range to sum.
    pub ranger: F,
}

impl<F: DisasterWaitingToHappen> DisasterWaitingToHappen for RangeSummer<F> {
    open spec fn thrown(self) -> Payload {
        match self.ranger.thrown() {
            Payload::IntRange(lo, hi) => Payload::Int(range_sum(lo as int, hi as int) as i64),
            other => other,
        }
    }

    open spec fn armed(self) -> bool {
        &&& self.ranger.armed()
        &&& (self.ranger.thrown() matches Payload::IntRange(lo, hi) ==> lo < hi)
    }

    fn HALT_AND_CATCH_FIRE(self) -> (t: Termination) {
        match catastrophe(self.ranger, PayloadKind::IntRange) {
            Err(t) => t,
            Ok(p) => {
                let (lo, hi) = match p {
                    Payload::IntRange(lo, hi) => (lo, hi),
                    _ => {
                        proof {
                            assert(false);
                        }
                        (0, 0)
                    },
                };
                let mut acc: i64 = 0;
                let mut i: i32 = lo;
                while i < hi
                    invariant
                        lo <= i <= hi,
                        acc == range_sum(lo as int, i as int),
                    decreases hi as int - i as int,
                {
                    proof {
                        lemma_range_sum_extend(lo as int, i as int);
                        lemma_range_sum_bounds(lo as int, i as int + 1);
                        assert((i as int + 1 - lo as int) * (lo as int) >= i64::MIN
                            && (i as int + 1 - lo as int) * (i as int) <= i64::MAX)
                            by (nonlinear_arith)
                            requires
                                -0x8000_0000 <= lo as int <= i as int,
                                (i as int) < 0x8000_0000;
                    }
                    acc = acc + i as i64;
                    i = i + 1;
                }
                Termination { payload: Payload::Int(acc) }
            },
        }
    }
}

/// A terminator that throws the sum of four thrown integers: one four-pair
/// invocation of the extraction protocol, expecting an integer from each of
/// four inner terminators, then the total is thrown. The first payload of
/// any other kind keeps propagating unchanged, and the terminators after it
/// are never invoked. The four integers must have a sum that a machine
/// integer can hold.
pub struct QuadSummer<A, B, C, D> {
    /// The terminator for the first summand.
    pub first: A,
    /// The terminator for the second summand.
    pub second: B,
    /// The terminator for the third summand.
    pub third: C,
    /// The terminator for the fourth summand.
    pub fourth: D,
}

impl<
    A: DisasterWaitingToHappen,
    B: DisasterWaitingToHappen,
    C: DisasterWaitingToHappen,
    D: DisasterWaitingToHappen,
> DisasterWaitingToHappen for QuadSummer<A, B, C, D> {
    open spec fn thrown(self) -> Payload {
        if !(self.first.thrown() is Int) {
            self.first.thrown()
        } else if !(self.second.thrown() is Int) {
            self.second.thrown()
        } else if !(self.third.thrown() is Int) {
            self.third.thrown()
        } else if !(self.fourth.thrown() is Int) {
            self.fourth.thrown()
        } else {
            Payload::Int(
                (self.first.thrown()->Int_0 + self.second.thrown()->Int_0
                    + self.third.thrown()->Int_0 + self.fourth.thrown()->Int_0) as i64,
            )
        }
    }

    open spec fn armed(self) -> bool {
        &&& self.first.armed()
        &&& (self.first.thrown() is Int ==> self.second.armed())
        &&& (self.first.thrown() is Int && self.second.thrown() is Int ==> self.third.armed())
        &&& (self.first.thrown() is Int && self.second.thrown() is Int && self.third.thrown()
            is Int ==> self.fourth.armed())
        &&& (self.first.thrown() is Int && self.second.thrown() is Int && self.third.thrown()
            is Int && self.fourth.thrown() is Int ==> i64::MIN <= self.first.thrown()->Int_0
            + self.second.thrown()->Int_0 + self.third.thrown()->Int_0
            + self.fourth.thrown()->Int_0 <= i64::MAX)
    }

    fn HALT_AND_CATCH_FIRE(self) -> (t: Termination) {
        match catastrophe4(
            self.first,
            PayloadKind::Int,
            self.second,
            PayloadKind::Int,
            self.third,
            PayloadKind::Int,
            self.fourth,
            PayloadKind::Int,
        ) {
            Err(t) => t,
            Ok((p1, p2, p3, p4)) => {
                let v1 = int_payload_value(p1);
                let v2 = int_payload_value(p2);
                let v3 = int_payload_value(p3);
                let v4 = int_payload_value(p4);
                let total: i128 = v1 as i128 + v2 as i128 + v3 as i128 + v4 as i128;
                Termination { payload: Payload::Int(total as i64) }
            },
        }
    }
}

/// The integer inside an integer payload.
fn int_payload_value(p: Payload) -> (v: i64)
    requires
        p is Int,
    ensures
        v == p->Int_0,
{
    match p {
        Payload::Int(v) => v,
        _ => {
            proof {
                assert(false);
            }
            0
        },
    }
}

} // verus!
