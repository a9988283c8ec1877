//! The state of a native histogram: sparse exponential buckets keyed by index.

use crate::bucket_index::{bucket_index, calculate_bucket_index, NATIVE_HISTOGRAM_SCHEMA_MAX, NATIVE_HISTOGRAM_SCHEMA_MIN};
use crate::float_bits::{
    is_finite, is_infinite, is_nan, is_negative, is_zero, lemma_fields, lemma_magnitude_order, lemma_magnitude_split,
    magnitude_bits, magnitude_scaled, MAGNITUDE_MASK, MANTISSA_MASK, SIGN_BIT,
};
use crate::decoding::{
    decodes_from, holds_bucket, lemma_encoding_round_trip, lemma_seq_sum_insert, lemma_seq_sum_update,
    lemma_sorted_keys_exist, running_counts, seq_sum, span_positions,
};
use crate::spans::{
    ascending, bucket_encoding, encodes, fits, lemma_encoding_unique, lemma_sorted_keys_unique, sorted_keys, span_view,
    try_make_buckets, BucketSpan,
};
use std::collections::HashMap;
use vstd::prelude::*;

verus! {

broadcast use vstd::std_specs::hash::group_hash_axioms;

/// Bit pattern of the default zero threshold, `2^-128`.
pub const DEFAULT_NATIVE_HISTOGRAM_ZERO_THRESHOLD_BITS: u64 = 0x37F0_0000_0000_0000;

/// The schema that the default bucket factor 1.1 selects: 8 buckets per
/// power of two.
pub const DEFAULT_NATIVE_HISTOGRAM_SCHEMA: i32 = 3;

/// What a native histogram holds, as mathematical values.
pub ghost struct NativeHistogramModel {
    /// Number of observations.
    pub count: int,
    /// Number of observations in the zero bucket.
    pub zero_count: int,
    /// Bit pattern of the zero threshold.
    pub zero_threshold_bits: u64,
    /// Bucket schema.
    pub schema: int,
    /// Count of each positive bucket, by bucket index.
    pub positive: Map<i32, u64>,
    /// Count of each negative bucket, by bucket index.
    pub negative: Map<i32, u64>,
}

/// `|value| <= threshold` for a value that is not NaN, `bits` and
/// `threshold_bits` being bit patterns. Among doubles that are not NaN and
/// have the sign bit clear, the order of values is the order of bit patterns;
/// a threshold with the sign bit set admits only zero when it is `-0.0`, and
/// a NaN threshold admits nothing.
pub open spec fn within_zero_threshold(bits: u64, threshold_bits: u64) -> bool {
    if is_nan(threshold_bits) {
        false
    } else if is_negative(threshold_bits) {
        is_zero(bits) && is_zero(threshold_bits)
    } else {
        magnitude_bits(bits) <= threshold_bits
    }
}

/// `value > 0.0` for a value that is not NaN.
pub open spec fn is_positive(bits: u64) -> bool {
    !is_negative(bits) && !is_zero(bits)
}

/// The bucket count `k` has in `m`, 0 where it has none.
pub open spec fn count_at(m: Map<i32, u64>, k: i32) -> int {
    if m.contains_key(k) {
        m[k] as int
    } else {
        0
    }
}

/// The histogram `h` after observing the double with bit pattern `bits`:
/// every observation is counted; a NaN goes nowhere else; a value whose
/// magnitude is within the zero threshold goes to the zero bucket; any other
/// value adds one to the bucket of its magnitude's index, among the positive
/// buckets if it is above zero and among the negative ones otherwise.
pub open spec fn observed(h: NativeHistogramModel, bits: u64) -> NativeHistogramModel {
    let counted = NativeHistogramModel { count: h.count + 1, ..h };
    if is_nan(bits) {
        counted
    } else if within_zero_threshold(bits, h.zero_threshold_bits) {
        NativeHistogramModel { zero_count: h.zero_count + 1, ..counted }
    } else {
        let idx = bucket_index((magnitude_bits(bits) as u64), h.schema) as i32;
        if is_positive(bits) {
            NativeHistogramModel { positive: h.positive.insert(idx, (count_at(h.positive, idx) + 1) as u64), ..counted }
        } else {
            NativeHistogramModel { negative: h.negative.insert(idx, (count_at(h.negative, idx) + 1) as u64), ..counted }
        }
    }
}

/// Every counter that observing `bits` increments is below `u64::MAX`.
pub open spec fn can_observe(h: NativeHistogramModel, bits: u64) -> bool {
    &&& h.count < u64::MAX
    &&& !is_nan(bits) && within_zero_threshold(bits, h.zero_threshold_bits) ==> h.zero_count < u64::MAX
    &&& !is_nan(bits) && !within_zero_threshold(bits, h.zero_threshold_bits) ==> {
        let idx = bucket_index((magnitude_bits(bits) as u64), h.schema) as i32;
        if is_positive(bits) {
            count_at(h.positive, idx) < u64::MAX
        } else {
            count_at(h.negative, idx) < u64::MAX
        }
    }
}

/// The zero bucket takes a value by its magnitude alone. For a value that
/// is not NaN and a finite threshold that is not negative: a finite value is
/// within the threshold exactly when its magnitude (through significand and
/// scale) is at most the threshold's; an infinite value never is; and a
/// value and its negation are treated alike.
pub proof fn lemma_zero_threshold_by_magnitude(bits: u64, threshold_bits: u64)
    requires
        !is_nan(bits),
        is_finite(threshold_bits),
        !is_negative(threshold_bits),
    ensures
        is_finite(bits) ==> (within_zero_threshold(bits, threshold_bits) <==> magnitude_scaled(bits)
            <= magnitude_scaled(threshold_bits)),
        is_infinite(bits) ==> !within_zero_threshold(bits, threshold_bits),
        within_zero_threshold(bits, threshold_bits) == within_zero_threshold(
            bits ^ 0x8000_0000_0000_0000u64,
            threshold_bits,
        ),
{
    let neg = bits ^ 0x8000_0000_0000_0000u64;
    lemma_fields(bits);
    lemma_fields(neg);
    lemma_fields(threshold_bits);
    lemma_magnitude_split(bits);
    lemma_magnitude_split(threshold_bits);
    assert(neg & 0x7FFF_FFFF_FFFF_FFFFu64 == bits & 0x7FFF_FFFF_FFFF_FFFFu64) by (bit_vector)
        requires
            neg == bits ^ 0x8000_0000_0000_0000u64;
    assert(neg & 0x000F_FFFF_FFFF_FFFFu64 == bits & 0x000F_FFFF_FFFF_FFFFu64) by (bit_vector)
        requires
            neg == bits ^ 0x8000_0000_0000_0000u64;
    assert(magnitude_bits(threshold_bits) == threshold_bits);
    if is_finite(bits) {
        lemma_magnitude_order(bits, threshold_bits);
    }
}

/// Observing is refused only where a counter would overflow: `can_observe`
/// holds exactly when observing leaves the count and the zero count within
/// `u64` and makes no bucket count smaller (a bucket at `u64::MAX` would
/// wrap to zero).
pub proof fn lemma_can_observe_exactly_without_overflow(h: NativeHistogramModel, bits: u64)
    requires
        h.count <= u64::MAX,
        h.zero_count <= u64::MAX,
    ensures
        can_observe(h, bits) <==> ({
            let o = observed(h, bits);
            &&& o.count <= u64::MAX
            &&& o.zero_count <= u64::MAX
            &&& forall|k: i32| #[trigger] count_at(o.positive, k) >= count_at(h.positive, k)
            &&& forall|k: i32| #[trigger] count_at(o.negative, k) >= count_at(h.negative, k)
        }),
{
    let o = observed(h, bits);
    assert((0xFFFF_FFFF_FFFF_FFFFu64 as int + 1) as u64 == 0u64) by (bit_vector);
    if !is_nan(bits) && !within_zero_threshold(bits, h.zero_threshold_bits) {
        let idx = bucket_index((magnitude_bits(bits) as u64), h.schema) as i32;
        if is_positive(bits) {
            let c = count_at(h.positive, idx);
            assert(count_at(o.positive, idx) == (c + 1) as u64);
            assert forall|k: i32| k != idx implies #[trigger] count_at(o.positive, k) == count_at(h.positive, k) by {}
            assert(o.negative == h.negative);
        } else {
            let c = count_at(h.negative, idx);
            assert(count_at(o.negative, idx) == (c + 1) as u64);
            assert forall|k: i32| k != idx implies #[trigger] count_at(o.negative, k) == count_at(h.negative, k) by {}
            assert(o.positive == h.positive);
        }
    } else {
        assert(o.positive == h.positive);
        assert(o.negative == h.negative);
    }
}

/// Snapshot of a native histogram, with its buckets in span/delta encoding.
pub struct NativeHistogramState {
    /// Total count of observations.
    pub count: u64,
    /// Count of observations in the zero bucket.
    pub zero_count: u64,
    /// Bit pattern of the threshold of the zero bucket.
    pub zero_threshold_bits: u64,
    /// Bucket schema (-4 to 8).
    pub schema: i32,
    /// Bucket spans for positive values.
    pub positive_spans: Vec<BucketSpan>,
    /// Delta-encoded bucket counts for positive values.
    pub positive_deltas: Vec<i64>,
    /// Bucket spans for negative values.
    pub negative_spans: Vec<BucketSpan>,
    /// Delta-encoded bucket counts for negative values.
    pub negative_deltas: Vec<i64>,
}

/// Both bucket maps of `h` can be encoded within the machine types.
pub open spec fn encodable(h: NativeHistogramModel) -> bool {
    fits(bucket_encoding(h.positive)) && fits(bucket_encoding(h.negative))
}

/// `s` is the snapshot of `h`.
pub open spec fn snapshot_of(s: NativeHistogramState, h: NativeHistogramModel) -> bool {
    &&& s.count == h.count
    &&& s.zero_count == h.zero_count
    &&& s.zero_threshold_bits == h.zero_threshold_bits
    &&& s.schema == h.schema
    &&& encodes(s.positive_spans@, s.positive_deltas@, bucket_encoding(h.positive))
    &&& encodes(s.negative_spans@, s.negative_deltas@, bucket_encoding(h.negative))
}

/// Sum of the counts of all buckets of `m`.
pub open spec fn bucket_total(m: Map<i32, u64>) -> int {
    seq_sum(sorted_keys(m).map_values(|k: i32| m[k] as int))
}

/// `k` belongs between positions `pos - 1` and `pos` of `ks`.
spec fn splits_at(ks: Seq<i32>, k: i32, pos: int) -> bool {
    &&& 0 <= pos <= ks.len()
    &&& forall|i: int| 0 <= i < pos ==> ks[i] < k
    &&& forall|i: int| pos <= i < ks.len() ==> ks[i] > k
}

proof fn lemma_insert_position(ks: Seq<i32>, k: i32)
    requires
        ascending(ks),
        !ks.contains(k),
    ensures
        exists|pos: int| #[trigger] splits_at(ks, k, pos),
    decreases ks.len(),
{
    if ks.len() == 0 {
        assert(splits_at(ks, k, 0));
    } else {
        let t = ks.drop_last();
        assert(!t.contains(k)) by {
            if t.contains(k) {
                let j = choose|j: int| 0 <= j < t.len() && t[j] == k;
                assert(ks[j] == k);
            }
        }
        lemma_insert_position(t, k);
        let p = choose|p: int| #[trigger] splits_at(t, k, p);
        assert(ks[ks.len() - 1] != k);
        if ks[ks.len() - 1] < k {
            assert forall|i: int| 0 <= i < ks.len() implies ks[i] < k by {
                if i < t.len() {
                    assert(ks[i] < ks[ks.len() - 1]);
                }
            }
            assert(splits_at(ks, k, ks.len() as int));
        } else {
            assert forall|i: int| 0 <= i < p implies ks[i] < k by {
                assert(t[i] < k);
            }
            assert forall|i: int| p <= i < ks.len() implies ks[i] > k by {
                if i < t.len() {
                    assert(t[i] > k);
                }
            }
            assert(splits_at(ks, k, p));
        }
    }
}

/// Adding one to a bucket (creating it with count one if it is missing)
/// adds one to the total of the bucket counts.
pub proof fn lemma_bucket_total_increment(m: Map<i32, u64>, k: i32)
    requires
        m.dom().finite(),
        count_at(m, k) < u64::MAX,
    ensures
        bucket_total(m.insert(k, (count_at(m, k) + 1) as u64)) == bucket_total(m) + 1,
{
    lemma_sorted_keys_exist(m);
    let ks = sorted_keys(m);
    let m2 = m.insert(k, (count_at(m, k) + 1) as u64);
    let vals = ks.map_values(|x: i32| m[x] as int);
    if m.contains_key(k) {
        assert(ks.to_set() =~= m2.dom());
        lemma_sorted_keys_unique(ks, m2);
        assert(ks.to_set().contains(k));
        let i = choose|i: int| 0 <= i < ks.len() && ks[i] == k;
        assert(ks.map_values(|x: i32| m2[x] as int) =~= vals.update(i, vals[i] + 1)) by {
            assert forall|j: int| 0 <= j < ks.len() && j != i implies ks[j] != k by {
                if j < i {
                    assert(ks[j] < ks[i]);
                } else {
                    assert(ks[i] < ks[j]);
                }
            }
        }
        lemma_seq_sum_update(vals, i, vals[i] + 1);
    } else {
        assert(!ks.contains(k)) by {
            if ks.contains(k) {
                assert(ks.to_set().contains(k));
            }
        }
        lemma_insert_position(ks, k);
        let pos = choose|pos: int| #[trigger] splits_at(ks, k, pos);
        let ks2 = ks.insert(pos, k);
        assert(ascending(ks2)) by {
            assert forall|i: int, j: int| 0 <= i < j < ks2.len() implies ks2[i] < ks2[j] by {
                if j < pos {
                    assert(ks2[i] == ks[i] && ks2[j] == ks[j]);
                } else if j == pos {
                    assert(ks2[i] == ks[i]);
                } else if i < pos {
                    assert(ks2[i] == ks[i] && ks2[j] == ks[j - 1]);
                    assert(ks[i] < k && k < ks[j - 1]);
                } else if i == pos {
                    assert(ks2[j] == ks[j - 1]);
                } else {
                    assert(ks2[i] == ks[i - 1] && ks2[j] == ks[j - 1]);
                }
            }
        }
        assert(ks2.to_set() =~= m2.dom()) by {
            assert forall|y: i32| ks2.to_set().contains(y) implies m2.dom().contains(y) by {
                let j = choose|j: int| 0 <= j < ks2.len() && ks2[j] == y;
                if j < pos {
                    assert(ks[j] == y);
                    assert(ks.to_set().contains(y));
                } else if j > pos {
                    assert(ks[j - 1] == y);
                    assert(ks.to_set().contains(y));
                }
            }
            assert forall|y: i32| m2.dom().contains(y) implies ks2.to_set().contains(y) by {
                if y == k {
                    assert(ks2[pos] == k);
                } else {
                    assert(ks.to_set().contains(y));
                    let j = choose|j: int| 0 <= j < ks.len() && ks[j] == y;
                    if j < pos {
                        assert(ks2[j] == y);
                    } else {
                        assert(ks2[j + 1] == y);
                    }
                }
            }
        }
        lemma_sorted_keys_unique(ks2, m2);
        assert(ks2.map_values(|x: i32| m2[x] as int) =~= vals.insert(pos, 1)) by {
            assert forall|j: int| 0 <= j < ks2.len() && j != pos implies ks2[j] != k by {
                if j < pos {
                    assert(ks2[j] == ks[j]);
                } else {
                    assert(ks2[j] == ks[j - 1]);
                }
            }
        }
        lemma_seq_sum_insert(vals, pos, 1);
    }
}

/// Every observation is counted once, and a value that is not NaN is also
/// counted in exactly one bucket: observing adds one to the count; adds one
/// to the zero count plus the totals of the positive and negative buckets
/// unless the value is NaN; and changes nothing else. So `count` minus those
/// counts is the number of NaN observations.
pub proof fn lemma_observe_accounting(h: NativeHistogramModel, bits: u64)
    requires
        h.positive.dom().finite(),
        h.negative.dom().finite(),
        can_observe(h, bits),
    ensures
        ({
            let o = observed(h, bits);
            &&& o.count == h.count + 1
            &&& o.zero_count + bucket_total(o.positive) + bucket_total(o.negative) == h.zero_count
                + bucket_total(h.positive) + bucket_total(h.negative) + (if is_nan(bits) { 0int } else { 1 })
            &&& o.schema == h.schema
            &&& o.zero_threshold_bits == h.zero_threshold_bits
        }),
{
    if !is_nan(bits) && !within_zero_threshold(bits, h.zero_threshold_bits) {
        let idx = bucket_index((magnitude_bits(bits) as u64), h.schema) as i32;
        if is_positive(bits) {
            lemma_bucket_total_increment(h.positive, idx);
        } else {
            lemma_bucket_total_increment(h.negative, idx);
        }
    }
}

/// The histogram `h` after observing each value of `obs` in turn.
pub open spec fn observed_all(h: NativeHistogramModel, obs: Seq<u64>) -> NativeHistogramModel
    decreases obs.len(),
{
    if obs.len() == 0 {
        h
    } else {
        observed(observed_all(h, obs.drop_last()), obs.last())
    }
}

/// Each value of `obs` can be observed in turn, starting from `h`.
pub open spec fn can_observe_all(h: NativeHistogramModel, obs: Seq<u64>) -> bool
    decreases obs.len(),
{
    obs.len() == 0 || (can_observe_all(h, obs.drop_last()) && can_observe(
        observed_all(h, obs.drop_last()),
        obs.last(),
    ))
}

/// Number of NaN values in `obs`.
pub open spec fn nan_count(obs: Seq<u64>) -> int
    decreases obs.len(),
{
    if obs.len() == 0 {
        0
    } else {
        nan_count(obs.drop_last()) + if is_nan(obs.last()) { 1int } else { 0 }
    }
}

/// Observing a sequence of values counts each of them once, and each one
/// that is not NaN also once in the zero bucket or in one positive or
/// negative bucket: the count grows by the number of values, and the count
/// less the zero count, the bucket totals and the NaNs stays what it was.
/// Started from an empty histogram, the count is the zero count plus the
/// number of NaNs plus the totals of the positive and negative buckets.
pub proof fn lemma_observe_all_accounting(h: NativeHistogramModel, obs: Seq<u64>)
    requires
        h.positive.dom().finite(),
        h.negative.dom().finite(),
        can_observe_all(h, obs),
    ensures
        ({
            let o = observed_all(h, obs);
            &&& o.count == h.count + obs.len()
            &&& o.count - (o.zero_count + nan_count(obs) + bucket_total(o.positive) + bucket_total(
                o.negative,
            )) == h.count - (h.zero_count + bucket_total(h.positive) + bucket_total(h.negative))
            &&& o.positive.dom().finite()
            &&& o.negative.dom().finite()
            &&& o.schema == h.schema
            &&& o.zero_threshold_bits == h.zero_threshold_bits
        }),
        h.count == 0 && h.zero_count == 0 && h.positive == Map::<i32, u64>::empty() && h.negative
            == Map::<i32, u64>::empty() ==> ({
            let o = observed_all(h, obs);
            o.count == o.zero_count + nan_count(obs) + bucket_total(o.positive) + bucket_total(
                o.negative,
            )
        }),
    decreases obs.len(),
{
    if obs.len() > 0 {
        let prefix = obs.drop_last();
        lemma_observe_all_accounting(h, prefix);
        let g = observed_all(h, prefix);
        lemma_observe_accounting(g, obs.last());
    }
    if h.positive == Map::<i32, u64>::empty() && h.negative == Map::<i32, u64>::empty() {
        lemma_bucket_total_empty();
    }
}

/// An empty bucket map has total zero.
proof fn lemma_bucket_total_empty()
    ensures
        bucket_total(Map::<i32, u64>::empty()) == 0,
{
    let e = Seq::<i32>::empty();
    assert(e.to_set() =~= Map::<i32, u64>::empty().dom());
    lemma_sorted_keys_unique(e, Map::<i32, u64>::empty());
    assert(sorted_keys(Map::<i32, u64>::empty()).map_values(
        |k: i32| Map::<i32, u64>::empty()[k] as int,
    ) =~= Seq::<int>::empty());
}

/// The buckets that the spans and deltas `spans`, `deltas` encode agree
/// with `m`: each bucket of `m` is there with its count, and every other
/// encoded bucket is an empty one filling a small gap.
pub open spec fn decodes_to(spans: Seq<BucketSpan>, deltas: Seq<i64>, m: Map<i32, u64>) -> bool {
    let p = span_positions(spans.map_values(|sp: BucketSpan| span_view(sp)));
    let c = running_counts(deltas.map_values(|d: i64| d as int));
    &&& p.len() == deltas.len()
    &&& forall|a: int, b: int| 0 <= a < b < p.len() ==> p[a] < p[b]
    &&& forall|k: i32| #[trigger] m.dom().contains(k) ==> holds_bucket(p, c, k as int, (m[k] as i64) as int)
    &&& forall|j: int| 0 <= j < p.len() ==> #[trigger] decodes_from(m, p[j], c[j])
}

/// A snapshot gives the histogram's buckets back: decoding its positive
/// and negative spans and deltas yields the positive and negative bucket
/// counts.
pub proof fn lemma_snapshot_round_trip(s: NativeHistogramState, h: NativeHistogramModel)
    requires
        snapshot_of(s, h),
        h.positive.dom().finite(),
        h.negative.dom().finite(),
    ensures
        decodes_to(s.positive_spans@, s.positive_deltas@, h.positive),
        decodes_to(s.negative_spans@, s.negative_deltas@, h.negative),
{
    lemma_encoding_round_trip(h.positive);
    lemma_encoding_round_trip(h.negative);
}

/// The count that `m` has at the integer position `pos`, 0 where it has none.
pub open spec fn count_at_position(m: Map<i32, u64>, pos: int) -> int {
    if i32::MIN <= pos <= i32::MAX && m.dom().contains(pos as i32) {
        m[pos as i32] as int
    } else {
        0
    }
}

/// Removing the largest bucket takes its count off the total.
proof fn lemma_bucket_total_remove_max(m: Map<i32, u64>, x: i32)
    requires
        m.dom().finite(),
        m.dom().contains(x),
        forall|k: i32| #[trigger] m.dom().contains(k) ==> k <= x,
    ensures
        bucket_total(m) == bucket_total(m.remove(x)) + m[x],
{
    let m2 = m.remove(x);
    lemma_sorted_keys_exist(m2);
    let ks2 = sorted_keys(m2);
    let ks = ks2.push(x);
    assert forall|i: int| 0 <= i < ks2.len() implies #[trigger] m2.dom().contains(ks2[i]) by {
        assert(ks2.to_set().contains(ks2[i]));
    }
    assert(ascending(ks)) by {
        assert forall|i: int, j: int| 0 <= i < j < ks.len() implies ks[i] < ks[j] by {
            if j == ks.len() - 1 {
                assert(m2.dom().contains(ks2[i]));
            }
        }
    }
    assert(ks.to_set() =~= m.dom()) by {
        assert forall|k: i32| ks.to_set().contains(k) implies m.dom().contains(k) by {
            let i = choose|i: int| 0 <= i < ks.len() && ks[i] == k;
            if i < ks2.len() {
                assert(m2.dom().contains(ks2[i]));
            }
        }
        assert forall|k: i32| m.dom().contains(k) implies ks.to_set().contains(k) by {
            if k == x {
                assert(ks[ks.len() - 1] == k);
            } else {
                assert(ks2.to_set().contains(k));
                let i = choose|i: int| 0 <= i < ks2.len() && ks2[i] == k;
                assert(ks[i] == k);
            }
        }
    }
    lemma_sorted_keys_unique(ks, m);
    let vals = ks.map_values(|k: i32| m[k] as int);
    let vals2 = ks2.map_values(|k: i32| m2[k] as int);
    assert(vals.drop_last() =~= vals2) by {
        assert forall|i: int| 0 <= i < vals2.len() implies vals.drop_last()[i] == vals2[i] by {
            assert(m2.dom().contains(ks2[i]));
        }
    }
}

/// Counts decoded at ascending positions sum to the bucket total of `m` when
/// every bucket of `m` has a position and every position holds its count in
/// `m`.
proof fn lemma_decoded_total(p: Seq<int>, c: Seq<int>, m: Map<i32, u64>)
    requires
        m.dom().finite(),
        p.len() == c.len(),
        forall|a: int, b: int| 0 <= a < b < p.len() ==> p[a] < p[b],
        forall|k: i32| #[trigger] m.dom().contains(k) ==> exists|j: int| 0 <= j < p.len() && p[j] == k,
        forall|j: int| 0 <= j < p.len() ==> c[j] == #[trigger] count_at_position(m, p[j]),
    ensures
        seq_sum(c) == bucket_total(m),
    decreases p.len(),
{
    if p.len() == 0 {
        assert(m =~= Map::<i32, u64>::empty()) by {
            assert forall|k: i32| !m.dom().contains(k) by {
                if m.dom().contains(k) {
                    let j = choose|j: int| 0 <= j < p.len() && p[j] == k;
                }
            }
        }
        lemma_bucket_total_empty();
    } else {
        let last = p.len() - 1;
        let pl = p[last];
        let q = p.drop_last();
        let d = c.drop_last();
        assert forall|k: i32| #[trigger] m.dom().contains(k) implies k <= pl by {
            let j = choose|j: int| 0 <= j < p.len() && p[j] == k;
            if j < last {
                assert(p[j] < p[last]);
            }
        }
        assert(count_at_position(m, pl) == c[last]);
        if i32::MIN <= pl <= i32::MAX && m.dom().contains(pl as i32) {
            let x = pl as i32;
            let m2 = m.remove(x);
            assert forall|k: i32| #[trigger] m2.dom().contains(k) implies exists|j: int| 0 <= j < q.len() && q[j] == k by {
                let j = choose|j: int| 0 <= j < p.len() && p[j] == k;
                assert(j != last);
                assert(q[j] == k);
            }
            assert forall|j: int| 0 <= j < q.len() implies d[j] == #[trigger] count_at_position(m2, q[j]) by {
                assert(p[j] < p[last]);
                assert(c[j] == count_at_position(m, p[j]));
            }
            lemma_decoded_total(q, d, m2);
            lemma_bucket_total_remove_max(m, x);
        } else {
            assert forall|k: i32| #[trigger] m.dom().contains(k) implies exists|j: int| 0 <= j < q.len() && q[j] == k by {
                let j = choose|j: int| 0 <= j < p.len() && p[j] == k;
                assert(j != last);
                assert(q[j] == k);
            }
            assert forall|j: int| 0 <= j < q.len() implies d[j] == #[trigger] count_at_position(m, q[j]) by {
                assert(c[j] == count_at_position(m, p[j]));
            }
            lemma_decoded_total(q, d, m);
        }
    }
}

/// The counts that the spans and deltas of a snapshot decode to add up to
/// the totals of the histogram's positive and negative buckets, when no
/// bucket counts more than `i64::MAX` observations.
pub proof fn lemma_snapshot_totals(s: NativeHistogramState, h: NativeHistogramModel)
    requires
        snapshot_of(s, h),
        h.positive.dom().finite(),
        h.negative.dom().finite(),
        forall|k: i32| #[trigger] h.positive.dom().contains(k) ==> h.positive[k] <= i64::MAX,
        forall|k: i32| #[trigger] h.negative.dom().contains(k) ==> h.negative[k] <= i64::MAX,
    ensures
        seq_sum(running_counts(s.positive_deltas@.map_values(|d: i64| d as int))) == bucket_total(h.positive),
        seq_sum(running_counts(s.negative_deltas@.map_values(|d: i64| d as int))) == bucket_total(h.negative),
{
    lemma_snapshot_round_trip(s, h);
    lemma_decodes_total(s.positive_spans@, s.positive_deltas@, h.positive);
    lemma_decodes_total(s.negative_spans@, s.negative_deltas@, h.negative);
}

/// The decoded counts of spans and deltas that decode to `m` add up to its total.
proof fn lemma_decodes_total(spans: Seq<BucketSpan>, deltas: Seq<i64>, m: Map<i32, u64>)
    requires
        decodes_to(spans, deltas, m),
        m.dom().finite(),
        forall|k: i32| #[trigger] m.dom().contains(k) ==> m[k] <= i64::MAX,
    ensures
        seq_sum(running_counts(deltas.map_values(|d: i64| d as int))) == bucket_total(m),
{
    let p = span_positions(spans.map_values(|sp: BucketSpan| span_view(sp)));
    let c = running_counts(deltas.map_values(|d: i64| d as int));
    assert forall|k: i32| #[trigger] m.dom().contains(k) implies exists|j: int| 0 <= j < p.len() && p[j] == k by {
        assert(holds_bucket(p, c, k as int, (m[k] as i64) as int));
    }
    assert forall|j: int| 0 <= j < p.len() implies c[j] == #[trigger] count_at_position(m, p[j]) by {
        assert(decodes_from(m, p[j], c[j]));
        if exists|k: i32| #[trigger] m.dom().contains(k) && k as int == p[j] {
            let k = choose|k: i32| #[trigger] m.dom().contains(k) && k as int == p[j];
            assert((m[k] as i64) as int == m[k]);
        }
    }
    lemma_decoded_total(p, c, m);
}

/// Observing values into an empty histogram and taking a snapshot: the count
/// is the zero count plus the number of NaNs plus the sums of the decoded
/// positive and negative bucket counts, for up to `i64::MAX` observations
/// (so that every bucket count fits the `i64` deltas).
pub proof fn lemma_snapshot_accounting(h: NativeHistogramModel, obs: Seq<u64>, s: NativeHistogramState)
    requires
        h.count == 0,
        h.zero_count == 0,
        h.positive == Map::<i32, u64>::empty(),
        h.negative == Map::<i32, u64>::empty(),
        obs.len() <= i64::MAX,
        can_observe_all(h, obs),
        snapshot_of(s, observed_all(h, obs)),
    ensures
        s.count == s.zero_count + nan_count(obs) + seq_sum(
            running_counts(s.positive_deltas@.map_values(|d: i64| d as int)),
        ) + seq_sum(running_counts(s.negative_deltas@.map_values(|d: i64| d as int))),
{
    lemma_observe_all_accounting(h, obs);
    lemma_bucket_counts_bounded(h, obs);
    lemma_snapshot_totals(s, observed_all(h, obs));
}

/// Started from an empty histogram, no bucket counts more observations than
/// the histogram.
pub proof fn lemma_bucket_counts_bounded(h: NativeHistogramModel, obs: Seq<u64>)
    requires
        h.count == 0,
        h.positive == Map::<i32, u64>::empty(),
        h.negative == Map::<i32, u64>::empty(),
        can_observe_all(h, obs),
    ensures
        ({
            let o = observed_all(h, obs);
            &&& o.count == obs.len()
            &&& forall|k: i32| #[trigger] o.positive.dom().contains(k) ==> o.positive[k] <= o.count
            &&& forall|k: i32| #[trigger] o.negative.dom().contains(k) ==> o.negative[k] <= o.count
        }),
    decreases obs.len(),
{
    if obs.len() > 0 {
        let prefix = obs.drop_last();
        lemma_bucket_counts_bounded(h, prefix);
        let g = observed_all(h, prefix);
        let o = observed(g, obs.last());
        assert forall|k: i32| #[trigger] o.positive.dom().contains(k) implies o.positive[k] <= o.count by {
            if g.positive.dom().contains(k) {
                assert(g.positive[k] <= g.count);
            }
        }
        assert forall|k: i32| #[trigger] o.negative.dom().contains(k) implies o.negative[k] <= o.count by {
            if g.negative.dom().contains(k) {
                assert(g.negative[k] <= g.count);
            }
        }
    }
}

/// Observations commute: observing `a` then `b` gives the same histogram
/// as observing `b` then `a`, where no counter is full along either order.
pub proof fn lemma_observe_commutes(h: NativeHistogramModel, a: u64, b: u64)
    requires
        can_observe(h, a),
        can_observe(observed(h, a), b),
        can_observe(h, b),
        can_observe(observed(h, b), a),
    ensures
        observed(observed(h, a), b) == observed(observed(h, b), a),
{
    let ab = observed(observed(h, a), b);
    let ba = observed(observed(h, b), a);
    assert(ab.positive =~= ba.positive);
    assert(ab.negative =~= ba.negative);
}

/// Two snapshots of the same histogram are equal: taking one changes
/// nothing that a second one would read.
pub proof fn lemma_snapshot_unique(s1: NativeHistogramState, s2: NativeHistogramState, h: NativeHistogramModel)
    requires
        snapshot_of(s1, h),
        snapshot_of(s2, h),
    ensures
        s1.count == s2.count,
        s1.zero_count == s2.zero_count,
        s1.zero_threshold_bits == s2.zero_threshold_bits,
        s1.schema == s2.schema,
        s1.positive_spans@ == s2.positive_spans@,
        s1.positive_deltas@ == s2.positive_deltas@,
        s1.negative_spans@ == s2.negative_spans@,
        s1.negative_deltas@ == s2.negative_deltas@,
{
    lemma_encoding_unique(
        s1.positive_spans@,
        s1.positive_deltas@,
        h.positive,
        s2.positive_spans@,
        s2.positive_deltas@,
        h.positive,
    );
    lemma_encoding_unique(
        s1.negative_spans@,
        s1.negative_deltas@,
        h.negative,
        s2.negative_spans@,
        s2.negative_deltas@,
        h.negative,
    );
}

/// Native histogram with sparse exponential bucketing.
pub struct NativeHistogram {
    count: u64,
    zero_count: u64,
    zero_threshold_bits: u64,
    schema: i32,
    positive_buckets: HashMap<i32, u64>,
    negative_buckets: HashMap<i32, u64>,
}

impl View for NativeHistogram {
    type V = NativeHistogramModel;

    closed spec fn view(&self) -> NativeHistogramModel {
        NativeHistogramModel {
            count: self.count as int,
            zero_count: self.zero_count as int,
            zero_threshold_bits: self.zero_threshold_bits,
            schema: self.schema as int,
            positive: self.positive_buckets@,
            negative: self.negative_buckets@,
        }
    }
}

/// The bucket maps of a native histogram are finite.
pub proof fn lemma_buckets_finite(h: &NativeHistogram)
    ensures
        h@.positive.dom().finite(),
        h@.negative.dom().finite(),
{
}

impl NativeHistogram {
    #[verifier::type_invariant]
    spec fn inv(self) -> bool {
        NATIVE_HISTOGRAM_SCHEMA_MIN <= self.schema <= NATIVE_HISTOGRAM_SCHEMA_MAX
    }

    /// Creates an empty native histogram with the given schema and zero
    /// threshold (as a bit pattern).
    pub fn with_zero_threshold(schema: i32, zero_threshold_bits: u64) -> (h: Self)
        requires
            NATIVE_HISTOGRAM_SCHEMA_MIN <= schema <= NATIVE_HISTOGRAM_SCHEMA_MAX,
        ensures
            h@ == (NativeHistogramModel {
                count: 0,
                zero_count: 0,
                zero_threshold_bits,
                schema: schema as int,
                positive: Map::empty(),
                negative: Map::empty(),
            }),
    {
        NativeHistogram {
            count: 0,
            zero_count: 0,
            zero_threshold_bits,
            schema,
            positive_buckets: HashMap::new(),
            negative_buckets: HashMap::new(),
        }
    }

    /// Creates an empty native histogram with the given schema and the
    /// default zero threshold `2^-128`.
    pub fn with_schema(schema: i32) -> (h: Self)
        requires
            NATIVE_HISTOGRAM_SCHEMA_MIN <= schema <= NATIVE_HISTOGRAM_SCHEMA_MAX,
        ensures
            h@ == (NativeHistogramModel {
                count: 0,
                zero_count: 0,
                zero_threshold_bits: DEFAULT_NATIVE_HISTOGRAM_ZERO_THRESHOLD_BITS,
                schema: schema as int,
                positive: Map::empty(),
                negative: Map::empty(),
            }),
    {
        Self::with_zero_threshold(schema, DEFAULT_NATIVE_HISTOGRAM_ZERO_THRESHOLD_BITS)
    }

    /// Creates an empty native histogram with the default schema 3 and the
    /// default zero threshold.
    pub fn new() -> (h: Self)
        ensures
            h@ == (NativeHistogramModel {
                count: 0,
                zero_count: 0,
                zero_threshold_bits: DEFAULT_NATIVE_HISTOGRAM_ZERO_THRESHOLD_BITS,
                schema: DEFAULT_NATIVE_HISTOGRAM_SCHEMA as int,
                positive: Map::empty(),
                negative: Map::empty(),
            }),
    {
        Self::with_schema(DEFAULT_NATIVE_HISTOGRAM_SCHEMA)
    }

    /// Number of observations.
    pub fn count(&self) -> (r: u64)
        ensures
            r == self@.count,
    {
        self.count
    }

    /// Number of observations in the zero bucket.
    pub fn zero_count(&self) -> (r: u64)
        ensures
            r == self@.zero_count,
    {
        self.zero_count
    }

    /// Bit pattern of the zero threshold.
    pub fn zero_threshold_bits(&self) -> (r: u64)
        ensures
            r == self@.zero_threshold_bits,
    {
        self.zero_threshold_bits
    }

    /// The bucket schema.
    pub fn schema(&self) -> (r: i32)
        ensures
            r == self@.schema,
            NATIVE_HISTOGRAM_SCHEMA_MIN <= r <= NATIVE_HISTOGRAM_SCHEMA_MAX,
    {
        proof {
            use_type_invariant(self);
        }
        self.schema
    }

    /// Whether observing the double with bit pattern `value_bits` leaves every
    /// counter within `u64`.
    pub fn can_observe(&self, value_bits: u64) -> (r: bool)
        ensures
            r == can_observe(self@, value_bits),
    {
        proof {
            use_type_invariant(self);
        }
        if self.count == u64::MAX {
            return false;
        }
        let (is_value_nan, in_zero, idx) = self.classify(value_bits);
        if is_value_nan {
            true
        } else if in_zero {
            self.zero_count < u64::MAX
        } else {
            let bucket = if value_bits & SIGN_BIT == 0 && value_bits & MAGNITUDE_MASK != 0 {
                &self.positive_buckets
            } else {
                &self.negative_buckets
            };
            match bucket.get(&idx) {
                Some(c) => *c < u64::MAX,
                None => true,
            }
        }
    }

    /// Whether the value is NaN, whether it falls in the zero bucket, and the
    /// bucket index of its magnitude.
    fn classify(&self, value_bits: u64) -> (r: (bool, bool, i32))
        ensures
            r.0 == is_nan(value_bits),
            !r.0 ==> r.1 == within_zero_threshold(value_bits, self@.zero_threshold_bits),
            !r.0 && !r.1 ==> r.2 == bucket_index((magnitude_bits(value_bits) as u64), self@.schema),
            !r.0 ==> (value_bits & SIGN_BIT == 0 && value_bits & MAGNITUDE_MASK != 0) == is_positive(value_bits),
    {
        proof {
            use_type_invariant(self);
            lemma_fields(value_bits);
            lemma_fields(self.zero_threshold_bits);
        }
        let exp_bits = (value_bits >> 52u64) & 0x7FF;
        let mant = value_bits & MANTISSA_MASK;
        if exp_bits == 0x7FF && mant != 0 {
            return (true, false, 0);
        }
        let abs_bits = value_bits & MAGNITUDE_MASK;
        let thr = self.zero_threshold_bits;
        let t_exp = (thr >> 52u64) & 0x7FF;
        let t_mant = thr & MANTISSA_MASK;
        let in_zero = if t_exp == 0x7FF && t_mant != 0 {
            false
        } else if thr & SIGN_BIT != 0 {
            abs_bits == 0 && thr & MAGNITUDE_MASK == 0
        } else {
            abs_bits <= thr
        };
        if in_zero {
            return (false, true, 0);
        }
        proof {
            lemma_fields(abs_bits);
            assert(magnitude_bits(abs_bits) == abs_bits);
        }
        let idx = calculate_bucket_index(abs_bits, self.schema);
        (false, false, idx)
    }

    /// The current state, or `None` exactly when a bucket map cannot be
    /// encoded within the machine types.
    pub fn try_get(&self) -> (r: Option<NativeHistogramState>)
        ensures
            r is Some <==> encodable(self@),
            r matches Some(s) ==> snapshot_of(s, self@),
    {
        let positive = try_make_buckets(&self.positive_buckets);
        let negative = try_make_buckets(&self.negative_buckets);
        match (positive, negative) {
            (Some((positive_spans, positive_deltas)), Some((negative_spans, negative_deltas))) => {
                Some(NativeHistogramState {
                    count: self.count,
                    zero_count: self.zero_count,
                    zero_threshold_bits: self.zero_threshold_bits,
                    schema: self.schema,
                    positive_spans,
                    positive_deltas,
                    negative_spans,
                    negative_deltas,
                })
            },
            _ => None,
        }
    }

    /// The current state, with both bucket maps in span/delta encoding.
    pub fn get(&self) -> (s: NativeHistogramState)
        requires
            encodable(self@),
        ensures
            snapshot_of(s, self@),
    {
        match self.try_get() {
            Some(s) => s,
            None => {
                proof {
                    assert(false);
                }
                NativeHistogramState {
                    count: 0,
                    zero_count: 0,
                    zero_threshold_bits: 0,
                    schema: 0,
                    positive_spans: Vec::new(),
                    positive_deltas: Vec::new(),
                    negative_spans: Vec::new(),
                    negative_deltas: Vec::new(),
                }
            },
        }
    }

    /// Observes the double with bit pattern `value_bits`.
    pub fn observe(&mut self, value_bits: u64)
        requires
            can_observe(old(self)@, value_bits),
        ensures
            final(self)@ == observed(old(self)@, value_bits),
    {
        proof {
            use_type_invariant(&*self);
        }
        let (is_value_nan, in_zero, idx) = self.classify(value_bits);
        self.count = self.count + 1;
        if is_value_nan {
            return;
        }
        if in_zero {
            self.zero_count = self.zero_count + 1;
            return;
        }
        if value_bits & SIGN_BIT == 0 && value_bits & MAGNITUDE_MASK != 0 {
            let c = match self.positive_buckets.get(&idx) {
                Some(c) => *c,
                None => 0,
            };
            let mut buckets = HashMap::new();
            std::mem::swap(&mut buckets, &mut self.positive_buckets);
            buckets.insert(idx, c + 1);
            self.positive_buckets = buckets;
        } else {
            let c = match self.negative_buckets.get(&idx) {
                Some(c) => *c,
                None => 0,
            };
            let mut buckets = HashMap::new();
            std::mem::swap(&mut buckets, &mut self.negative_buckets);
            buckets.insert(idx, c + 1);
            self.negative_buckets = buckets;
        }
    }
}

impl Default for NativeHistogram {
    fn default() -> (h: Self)
        ensures
            h@ == (NativeHistogramModel {
                count: 0,
                zero_count: 0,
                zero_threshold_bits: DEFAULT_NATIVE_HISTOGRAM_ZERO_THRESHOLD_BITS,
                schema: DEFAULT_NATIVE_HISTOGRAM_SCHEMA as int,
                positive: Map::empty(),
                negative: Map::empty(),
            }),
    {
        Self::new()
    }
}

} // verus!
