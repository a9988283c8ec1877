//! The state of a classic histogram: cumulative-free buckets with upper bounds.

use crate::decoding::{lemma_seq_sum_update, seq_sum};
use crate::float_bits::{
    is_finite, is_infinite, is_nan, is_negative, lemma_fields, lemma_magnitude_order, lemma_magnitude_scaled_sign,
    lemma_magnitude_split, magnitude_bits, value_scaled, MAGNITUDE_MASK, MANTISSA_MASK, SIGN_BIT,
};
use vstd::prelude::*;

verus! {

/// Bit pattern of the largest finite double, the upper bound of the last bucket.
pub const MAX_FINITE_BITS: u64 = 0x7FEF_FFFF_FFFF_FFFF;

/// Bit pattern of positive infinity.
pub const POSITIVE_INFINITY_BITS: u64 = 0x7FF0_0000_0000_0000;

/// The position of a double on the number line as an integer, or `None` for
/// NaN: the magnitude bits, negated when the sign bit is set. Among doubles
/// that are not NaN this orders as the values do, and `-0.0` and `+0.0` both
/// sit at 0.
pub open spec fn order_key(bits: u64) -> Option<int> {
    if is_nan(bits) {
        None
    } else if is_negative(bits) {
        Some(-magnitude_bits(bits))
    } else {
        Some(magnitude_bits(bits))
    }
}

/// `bound >= value` for doubles given by bit patterns; false when either is NaN.
pub open spec fn bound_admits(bound_bits: u64, value_bits: u64) -> bool {
    match (order_key(bound_bits), order_key(value_bits)) {
        (Some(b), Some(v)) => b >= v,
        _ => false,
    }
}

/// A bound admits a value exactly when the bound's real value is at least
/// the value's: for finite doubles by their signed values (sign, significand
/// and scale); `+inf` admits every value that is not NaN and is admitted
/// only by `+inf`; `-inf` is admitted by every bound that is not NaN and
/// admits only `-inf`; a NaN neither admits nor is admitted.
pub proof fn lemma_bound_admits_compares_values(bound_bits: u64, value_bits: u64)
    ensures
        is_finite(bound_bits) && is_finite(value_bits) ==> (bound_admits(bound_bits, value_bits)
            <==> value_scaled(bound_bits) >= value_scaled(value_bits)),
        is_nan(bound_bits) || is_nan(value_bits) ==> !bound_admits(bound_bits, value_bits),
        is_infinite(bound_bits) && !is_negative(bound_bits) && !is_nan(value_bits) ==> bound_admits(
            bound_bits,
            value_bits,
        ),
        is_infinite(value_bits) && is_negative(value_bits) && !is_nan(bound_bits) ==> bound_admits(
            bound_bits,
            value_bits,
        ),
        is_infinite(bound_bits) && is_negative(bound_bits) && !is_nan(value_bits) ==> (bound_admits(
            bound_bits,
            value_bits,
        ) <==> is_infinite(value_bits) && is_negative(value_bits)),
        is_infinite(value_bits) && !is_negative(value_bits) && !is_nan(bound_bits) ==> (bound_admits(
            bound_bits,
            value_bits,
        ) <==> is_infinite(bound_bits) && !is_negative(bound_bits)),
{
    lemma_magnitude_split(bound_bits);
    lemma_magnitude_split(value_bits);
    if is_finite(bound_bits) && is_finite(value_bits) {
        lemma_magnitude_order(bound_bits, value_bits);
        lemma_magnitude_order(value_bits, bound_bits);
        lemma_magnitude_scaled_sign(bound_bits);
        lemma_magnitude_scaled_sign(value_bits);
    }
}

/// Sum of the bucket counts.
pub open spec fn counts_total(buckets: Seq<(u64, u64)>) -> int {
    seq_sum(buckets.map_values(|b: (u64, u64)| b.1 as int))
}

/// What a classic histogram holds: the number of observations and, for each
/// bucket, its upper bound's bit pattern and its count.
pub ghost struct HistogramModel {
    pub count: int,
    pub buckets: Seq<(u64, u64)>,
}

/// Open Metrics histogram with fixed upper bounds.
pub struct Histogram {
    count: u64,
    buckets: Vec<(u64, u64)>,
}

impl View for Histogram {
    type V = HistogramModel;

    closed spec fn view(&self) -> HistogramModel {
        HistogramModel { count: self.count as int, buckets: self.buckets@ }
    }
}

/// Compares two doubles given by bit patterns: `bound >= value`, false when
/// either is NaN.
fn admits(bound_bits: u64, value_bits: u64) -> (r: bool)
    ensures
        r == bound_admits(bound_bits, value_bits),
{
    proof {
        lemma_fields(bound_bits);
        lemma_fields(value_bits);
    }
    if ((bound_bits >> 52u64) & 0x7FF == 0x7FF && bound_bits & MANTISSA_MASK != 0) || ((value_bits >> 52u64)
        & 0x7FF == 0x7FF && value_bits & MANTISSA_MASK != 0) {
        return false;
    }
    let b = bound_bits & MAGNITUDE_MASK;
    let v = value_bits & MAGNITUDE_MASK;
    let b_neg = bound_bits & SIGN_BIT != 0;
    let v_neg = value_bits & SIGN_BIT != 0;
    if !b_neg && !v_neg {
        b >= v
    } else if b_neg && v_neg {
        b <= v
    } else if b_neg {
        b == 0 && v == 0
    } else {
        true
    }
}

impl Histogram {
    /// The histogram has a last bucket, bounded by the largest finite double,
    /// and no bucket counts more observations than the histogram.
    pub open spec fn well_formed(&self) -> bool {
        &&& self@.buckets.len() > 0
        &&& self@.buckets.last().0 == MAX_FINITE_BITS
        &&& forall|i: int| 0 <= i < self@.buckets.len() ==> (#[trigger] self@.buckets[i]).1 <= self@.count
    }

    /// Creates a histogram with buckets bounded by the doubles whose bit
    /// patterns are `buckets`, in the given order, followed by a last bucket
    /// bounded by the largest finite double; all counts start at zero.
    pub fn new(buckets: Vec<u64>) -> (h: Self)
        requires
            buckets.len() < usize::MAX,
        ensures
            h.well_formed(),
            h@.count == 0,
            h@.buckets == buckets@.map_values(|b: u64| (b, 0u64)).push((MAX_FINITE_BITS, 0u64)),
    {
        let mut v: Vec<(u64, u64)> = Vec::new();
        let mut i: usize = 0;
        while i < buckets.len()
            invariant
                i <= buckets.len(),
                v@ == buckets@.take(i as int).map_values(|b: u64| (b, 0u64)),
            decreases buckets.len() - i,
        {
            v.push((buckets[i], 0));
            proof {
                assert(buckets@.take(i + 1).map_values(|b: u64| (b, 0u64)) =~= buckets@.take(
                    i as int,
                ).map_values(|b: u64| (b, 0u64)).push((buckets@[i as int], 0u64)));
            }
            i = i + 1;
        }
        proof {
            assert(buckets@.take(buckets.len() as int) =~= buckets@);
        }
        v.push((MAX_FINITE_BITS, 0));
        Histogram { count: 0, buckets: v }
    }

    /// Number of observations.
    pub fn count(&self) -> (r: u64)
        ensures
            r == self@.count,
    {
        self.count
    }

    /// The buckets: each upper bound's bit pattern with the bucket's count.
    pub fn buckets(&self) -> (r: &Vec<(u64, u64)>)
        ensures
            r@ == self@.buckets,
    {
        &self.buckets
    }

    /// Observes the double with bit pattern `value_bits`: counts it, and adds
    /// it to the first bucket whose upper bound is at least the value,
    /// returning that bucket's index, or `None` when no bound is (the value is
    /// NaN or `+inf`).
    pub fn observe_and_bucket(&mut self, value_bits: u64) -> (r: Option<usize>)
        requires
            old(self).well_formed(),
            old(self)@.count < u64::MAX,
        ensures
            final(self).well_formed(),
            final(self)@.count == old(self)@.count + 1,
            is_nan(value_bits) ==> r is None,
            counts_total(final(self)@.buckets) == counts_total(old(self)@.buckets) + (if r is Some {
                1int
            } else {
                0
            }),
            !is_nan(value_bits) && value_bits != POSITIVE_INFINITY_BITS ==> r is Some,
            match r {
                Some(i) => {
                    &&& i < old(self)@.buckets.len()
                    &&& bound_admits(old(self)@.buckets[i as int].0, value_bits)
                    &&& forall|j: int| 0 <= j < i ==> !bound_admits(#[trigger] old(self)@.buckets[j].0, value_bits)
                    &&& final(self)@.buckets == old(self)@.buckets.update(
                        i as int,
                        (old(self)@.buckets[i as int].0, (old(self)@.buckets[i as int].1 + 1) as u64),
                    )
                },
                None => {
                    &&& forall|j: int| 0 <= j < old(self)@.buckets.len() ==> !bound_admits(#[trigger] old(self)@.buckets[j].0, value_bits)
                    &&& final(self)@.buckets == old(self)@.buckets
                },
            },
    {
        self.count = self.count + 1;
        let mut i: usize = 0;
        while i < self.buckets.len()
            invariant
                i <= self.buckets@.len(),
                self.count == old(self)@.count + 1,
                self.buckets@ == old(self)@.buckets,
                old(self).well_formed(),
                old(self)@.count < u64::MAX,
                forall|j: int| 0 <= j < i ==> !bound_admits(#[trigger] self.buckets@[j].0, value_bits),
            decreases self.buckets.len() - i,
        {
            let (bound, c) = self.buckets[i];
            if admits(bound, value_bits) {
                let ghost before = self.buckets@;
                self.buckets.set(i, (bound, c + 1));
                proof {
                    let cs = before.map_values(|b: (u64, u64)| b.1 as int);
                    assert(self.buckets@.map_values(|b: (u64, u64)| b.1 as int) =~= cs.update(
                        i as int,
                        cs[i as int] + 1,
                    ));
                    lemma_seq_sum_update(cs, i as int, cs[i as int] + 1);
                }
                return Some(i);
            }
            i = i + 1;
        }
        proof {
            lemma_fields(value_bits);
            if !is_nan(value_bits) && value_bits != POSITIVE_INFINITY_BITS {
                assert(magnitude_bits(MAX_FINITE_BITS) == MAX_FINITE_BITS);
                assert(!is_nan(MAX_FINITE_BITS));
                if !is_negative(value_bits) {
                    assert(value_bits < 0x8000_0000_0000_0000);
                    assert(magnitude_bits(value_bits) == value_bits);
                    assert(value_bits <= MAX_FINITE_BITS);
                }
                assert(bound_admits(self.buckets@[self.buckets@.len() - 1].0, value_bits));
            }
        }
        None
    }

    /// Observes the double with bit pattern `value_bits`.
    pub fn observe(&mut self, value_bits: u64)
        requires
            old(self).well_formed(),
            old(self)@.count < u64::MAX,
        ensures
            final(self).well_formed(),
            final(self)@.count == old(self)@.count + 1,
            forall|i: int| 0 <= i < old(self)@.buckets.len() ==> #[trigger] final(self)@.buckets[i] == (
                if bound_admits(old(self)@.buckets[i].0, value_bits) && forall|j: int|
                    0 <= j < i ==> !bound_admits(#[trigger] old(self)@.buckets[j].0, value_bits) {
                    (old(self)@.buckets[i].0, (old(self)@.buckets[i].1 + 1) as u64)
                } else {
                    old(self)@.buckets[i]
                }),
            final(self)@.buckets.len() == old(self)@.buckets.len(),
    {
        self.observe_and_bucket(value_bits);
    }
}

} // verus!
