//! Mapping observed values to native-histogram bucket indices.

use crate::bounds::{bounds_of, get_native_histogram_bounds, lemma_bounds_refine, lemma_bounds_shape};
use crate::bounds_rounding::lemma_bounds_rounded;
use crate::rounding::{fraction_significand, lemma_pow_two_pow, lemma_pow_two_pow_monotonic, near_root};
use vstd::arithmetic::power::pow;
use crate::float_bits::{
    ceil_log2_magnitude, lemma_magnitude_at_most_pow2, magnitude_at_most_pow2, exponent_field, frexp, frexp_exponent, frexp_fraction, is_infinite, is_nan, is_negative, is_zero,
    lemma_fields, lemma_fraction_range, floor_log2, lemma_floor_log2_bounds, magnitude_bits, mantissa_field, significand, HALF_BITS, MAGNITUDE_MASK, MANTISSA_MASK, SIGN_BIT,
};
use vstd::arithmetic::div_mod::{
    lemma_div_is_ordered, lemma_div_nonincreasing, lemma_fundamental_div_mod,
    lemma_fundamental_div_mod_converse,
};
use vstd::arithmetic::power2::{lemma2_to64, lemma_pow2_pos, lemma_pow2_unfold, pow2};
use vstd::bits::lemma_u32_shl_is_mul;
use vstd::prelude::*;

verus! {

/// Largest supported native-histogram schema.
pub const NATIVE_HISTOGRAM_SCHEMA_MAX: i32 = 8;

/// Smallest supported native-histogram schema.
pub const NATIVE_HISTOGRAM_SCHEMA_MIN: i32 = -4;

/// Number of elements of `s` below `x`.
pub open spec fn count_below(s: Seq<u64>, x: int) -> nat
    decreases s.len(),
{
    if s.len() == 0 {
        0
    } else {
        count_below(s.drop_last(), x) + if (s.last() as int) < x { 1nat } else { 0nat }
    }
}

/// In an ascending sequence, the elements below `x` are exactly those before
/// the partition point `pos`.
pub proof fn lemma_count_below_partition(s: Seq<u64>, x: int, pos: int)
    requires
        forall|i: int, j: int| 0 <= i < j < s.len() ==> s[i] < s[j],
        0 <= pos <= s.len(),
        forall|i: int| 0 <= i < pos ==> (s[i] as int) < x,
        forall|i: int| pos <= i < s.len() ==> (s[i] as int) >= x,
    ensures
        count_below(s, x) == pos,
    decreases s.len(),
{
    if s.len() > 0 {
        let t = s.drop_last();
        if pos == s.len() {
            lemma_count_below_partition(t, x, pos - 1);
        } else {
            lemma_count_below_partition(t, x, pos);
        }
    }
}

/// Number of entries of the ascending `bounds` below `x`, found by binary search.
fn count_bounds_below(bounds: &[u64], x: u64) -> (r: usize)
    requires
        forall|i: int, j: int| 0 <= i < j < bounds@.len() ==> bounds@[i] < bounds@[j],
    ensures
        r == count_below(bounds@, x as int),
        r <= bounds@.len(),
{
    let mut lo: usize = 0;
    let mut hi: usize = bounds.len();
    while lo < hi
        invariant
            forall|i: int, j: int| 0 <= i < j < bounds@.len() ==> bounds@[i] < bounds@[j],
            lo <= hi <= bounds@.len(),
            forall|i: int| 0 <= i < lo ==> bounds@[i] < x,
            forall|i: int| hi <= i < bounds@.len() ==> bounds@[i] >= x,
        decreases hi - lo,
    {
        let mid = lo + (hi - lo) / 2;
        if bounds[mid] < x {
            lo = mid + 1;
        } else {
            hi = mid;
        }
    }
    proof {
        lemma_count_below_partition(bounds@, x as int, lo as int);
    }
    lo
}

/// Floor division of nested divisions by positive divisors, for any sign.
pub proof fn lemma_div_nested(x: int, a: int, b: int)
    requires
        a > 0,
        b > 0,
    ensures
        (x / a) / b == x / (a * b),
{
    let q1 = x / a;
    let r1 = x % a;
    let q2 = q1 / b;
    let r2 = q1 % b;
    lemma_fundamental_div_mod(x, a);
    lemma_fundamental_div_mod(q1, b);
    assert(x == q2 * (a * b) + (a * r2 + r1) && 0 <= a * r2 + r1 < a * b) by (nonlinear_arith)
        requires
            x == a * q1 + r1,
            q1 == b * q2 + r2,
            0 <= r1 < a,
            0 <= r2 < b,
            a > 0,
            b > 0;
    lemma_fundamental_div_mod_converse(x, a * b, q2, a * r2 + r1);
}

/// An arithmetic right shift of an `i32` is floor division by a power of two.
pub proof fn lemma_shr_is_floor_div(x: i32, k: u32)
    requires
        k < 32,
    ensures
        (x >> k) as int == (x as int) / (pow2(k as nat) as int),
    decreases k,
{
    lemma2_to64();
    if k == 0 {
        assert(x >> 0u32 == x) by (bit_vector);
    } else {
        let km = (k - 1) as u32;
        assert((x >> k) == (x >> km) >> 1u32) by (bit_vector)
            requires
                0 < k < 32,
                km == k - 1;
        let y = x >> km;
        assert((y >> 1u32) == y / 2) by (bit_vector);
        lemma_shr_is_floor_div(x, km);
        lemma_pow2_unfold(k as nat);
        lemma_pow2_pos(km as nat);
        lemma_div_nested(x as int, pow2(km as nat) as int, 2);
    }
}

/// The index of the native-histogram bucket that holds the double with bit
/// pattern `bits` under `schema`. NaN and zero have index 0, infinities the
/// extreme `i32` values. Otherwise, with `|value| == f * 2^e` and
/// `0.5 <= f < 1`: for a positive schema, the number of the schema's
/// boundaries below `f` plus `(e - 1)` times the number of boundaries; for
/// schema `-k <= 0`, `key / 2^k` rounded up, where `key` is `e - 1` when
/// `f == 0.5` and `e` otherwise (schema `i32::MIN` gives 0).
pub open spec fn bucket_index(bits: u64, schema: int) -> int {
    if is_nan(bits) || is_zero(bits) {
        0
    } else if is_infinite(bits) {
        if is_negative(bits) {
            i32::MIN as int
        } else {
            i32::MAX as int
        }
    } else if schema > 0 {
        let b = bounds_of(schema);
        count_below(b, frexp_fraction(bits)) + (frexp_exponent(bits) - 1) * b.len()
    } else if schema == i32::MIN {
        0
    } else {
        let k = (-schema) as nat;
        let key = frexp_exponent(bits) - (if frexp_fraction(bits) == HALF_BITS { 1int } else { 0 });
        (key + pow2(k) - 1) / (pow2(k) as int)
    }
}

/// The schemas for which the bucket index of `bits` can be computed: all of
/// them for NaN, zero and infinities, else the schemas `-30..=8` and `i32::MIN`.
pub open spec fn index_computable(bits: u64, schema: int) -> bool {
    ||| is_nan(bits) || is_zero(bits) || is_infinite(bits)
    ||| schema == i32::MIN
    ||| -30 <= schema <= 8
}

/// Calculates the bucket index of the double with bit pattern `bits`.
pub fn calculate_bucket_index(bits: u64, schema: i32) -> (r: i32)
    requires
        index_computable(bits, schema as int),
    ensures
        r == bucket_index(bits, schema as int),
{
    proof {
        lemma_fields(bits);
    }
    let exp_bits = (bits >> 52u64) & 0x7FF;
    let mant = bits & MANTISSA_MASK;
    let mag = bits & MAGNITUDE_MASK;
    if (exp_bits == 0x7FF && mant != 0) || mag == 0 {
        return 0;
    }
    if exp_bits == 0x7FF {
        return if bits & SIGN_BIT == 0 {
            i32::MAX
        } else {
            i32::MIN
        };
    }
    proof {
        lemma_fields(mag);
        assert(exponent_field(mag) == exponent_field(bits));
    }
    let (frac, exp) = frexp(mag);
    assert(frac == frexp_fraction(bits) && exp == frexp_exponent(bits));
    if schema > 0 {
        positive_schema_index(frac, exp, schema)
    } else if schema == i32::MIN {
        0
    } else {
        nonpositive_schema_index(frac, exp, schema)
    }
}

/// Bucket index under a positive schema of a value `f * 2^exp` whose
/// fraction `f` has bit pattern `frac`.
fn positive_schema_index(frac: u64, exp: i32, schema: i32) -> (r: i32)
    requires
        0 < schema <= 8,
        -1073 <= exp <= 1024,
    ensures
        r == count_below(bounds_of(schema as int), frac as int) + (exp - 1) * bounds_of(schema as int).len(),
{
    let bounds = get_native_histogram_bounds(schema);
    proof {
        lemma_bounds_shape(schema as int);
        lemma2_to64();
        if schema < 8 {
            vstd::arithmetic::power2::lemma_pow2_strictly_increases(schema as nat, 8);
        }
    }
    let frac_index = count_bounds_below(bounds, frac);
    let len = bounds.len() as i32;
    assert(-1074 * 256 <= (exp - 1) * len <= 1023 * 256) by (nonlinear_arith)
        requires
            -1073 <= exp <= 1024,
            1 <= len <= 256;
    frac_index as i32 + (exp - 1) * len
}

/// Bucket index under schema `-k <= 0` of a value `f * 2^exp` whose fraction
/// `f` has bit pattern `frac`: `key / 2^k` rounded up.
fn nonpositive_schema_index(frac: u64, exp: i32, schema: i32) -> (r: i32)
    requires
        -30 <= schema <= 0,
        -1073 <= exp <= 1024,
    ensures
        ({
            let k = (-schema) as nat;
            let key = exp - (if frac == HALF_BITS { 1int } else { 0 });
            r == (key + pow2(k) - 1) / (pow2(k) as int)
        }),
{
    let mut key = exp;
    if frac == HALF_BITS {
        key = key - 1;
    }
    let k: u32 = (-schema) as u32;
    proof {
        lemma2_to64();
        lemma_u32_shl_is_mul(1, k);
        if k < 30 {
            vstd::arithmetic::power2::lemma_pow2_strictly_increases(k as nat, 30);
        }
        lemma_pow2_pos(k as nat);
    }
    let offset: i32 = ((1u32 << k) - 1) as i32;
    let shifted: i32 = key + offset;
    proof {
        lemma_shr_is_floor_div(shifted, k);
    }
    shifted >> k
}

/// In an ascending sequence the elements below `x` come first.
pub proof fn lemma_count_below_props(s: Seq<u64>, x: int)
    requires
        forall|i: int, j: int| 0 <= i < j < s.len() ==> s[i] < s[j],
    ensures
        count_below(s, x) <= s.len(),
        forall|i: int| 0 <= i < count_below(s, x) ==> (s[i] as int) < x,
        forall|i: int| count_below(s, x) <= i < s.len() ==> (s[i] as int) >= x,
    decreases s.len(),
{
    if s.len() > 0 {
        let t = s.drop_last();
        lemma_count_below_props(t, x);
        let ct = count_below(t, x) as int;
        assert forall|i: int| 0 <= i < t.len() implies #[trigger] t[i] == s[i] by {}
        if (s.last() as int) < x {
            assert forall|i: int| 0 <= i < t.len() implies (t[i] as int) < x by {
                assert(s[i] < s[s.len() - 1]);
            }
            if ct < t.len() {
                assert((t[ct] as int) >= x);
            }
            assert(count_below(s, x) == s.len());
            assert forall|i: int| 0 <= i < count_below(s, x) implies (s[i] as int) < x by {
                if i < t.len() {
                    assert((t[i] as int) < x);
                }
            }
        } else {
            assert(count_below(s, x) == ct);
            assert forall|i: int| 0 <= i < count_below(s, x) implies (s[i] as int) < x by {
                assert((t[i] as int) < x);
            }
            assert forall|i: int| count_below(s, x) <= i < s.len() implies (s[i] as int) >= x by {
                if i < t.len() {
                    assert((t[i] as int) >= x);
                }
            }
        }
    }
}

/// Halving the boundaries: when `fine` holds every boundary of `coarse` at
/// twice its position, the count of `coarse` boundaries below `x` is the
/// count of `fine` boundaries below `x`, halved and rounded up.
proof fn lemma_count_below_refine(coarse: Seq<u64>, fine: Seq<u64>, x: int)
    requires
        forall|i: int, j: int| 0 <= i < j < fine.len() ==> fine[i] < fine[j],
        fine.len() == 2 * coarse.len(),
        forall|i: int| 0 <= i < coarse.len() ==> fine[2 * i] == #[trigger] coarse[i],
    ensures
        count_below(coarse, x) == (count_below(fine, x) + 1) / 2,
{
    lemma_count_below_props(fine, x);
    let pf = count_below(fine, x) as int;
    let p = (pf + 1) / 2;
    assert forall|i: int, j: int| 0 <= i < j < coarse.len() implies coarse[i] < coarse[j] by {
        assert(fine[2 * i] < fine[2 * j]);
    }
    assert forall|i: int| 0 <= i < p implies (coarse[i] as int) < x by {
        assert(fine[2 * i] == coarse[i]);
    }
    assert forall|i: int| p <= i < coarse.len() implies (coarse[i] as int) >= x by {
        assert(fine[2 * i] == coarse[i]);
    }
    lemma_count_below_partition(coarse, x, p);
}

/// Lowering the schema by one merges the buckets in adjacent pairs: the
/// bucket index of a value at schema `s` is its index at schema `s + 1`,
/// halved and rounded up. (Infinities keep the extreme index at every
/// schema and are left out.)
pub proof fn lemma_bucket_index_merge(bits: u64, schema: int)
    requires
        -30 <= schema < 8,
        !is_infinite(bits),
    ensures
        bucket_index(bits, schema) == (bucket_index(bits, schema + 1) + 1) / 2,
{
    if is_nan(bits) || is_zero(bits) {
        return;
    }
    lemma_fraction_range(bits);
    let f = frexp_fraction(bits);
    let e = frexp_exponent(bits);
    lemma2_to64();
    if schema >= 1 {
        lemma_bounds_shape(schema + 1);
        lemma_bounds_refine(schema);
        let c = bounds_of(schema);
        let fine = bounds_of(schema + 1);
        lemma_count_below_refine(c, fine, f);
        let cc = count_below(c, f) as int;
        let cf = count_below(fine, f) as int;
        assert(cc == (cf + 1) / 2);
        assert(fine.len() == 2 * c.len());
        let m = (e - 1) * c.len();
        assert((e - 1) * fine.len() == 2 * m) by (nonlinear_arith)
            requires
                fine.len() == 2 * c.len(),
                m == (e - 1) * c.len();
        assert((cf + 2 * m + 1) / 2 == (cf + 1) / 2 + m);
        assert(bucket_index(bits, schema) == cc + m);
        assert(bucket_index(bits, schema + 1) == cf + 2 * m);
    } else if schema == 0 {
        lemma_bounds_shape(1);
        let fine = bounds_of(1);
        lemma_count_below_props(fine, f);
        let cf = count_below(fine, f) as int;
        assert(fine.len() == 2);
        if f == HALF_BITS {
            assert(cf == 0) by {
                if cf > 0 {
                    assert((fine[0] as int) < f);
                }
            }
        } else {
            assert(cf >= 1) by {
                if cf == 0 {
                    assert((fine[0] as int) >= f);
                }
            }
        }
        let key = e - (if f == HALF_BITS { 1int } else { 0 });
        assert(bucket_index(bits, schema) == (key + 1 - 1) / 1);
        assert((key + 1 - 1) / 1 == key) by (nonlinear_arith);
        assert(bucket_index(bits, schema + 1) == cf + (e - 1) * 2);
    } else {
        let k = (-schema) as nat;
        let n = pow2((k - 1) as nat) as int;
        lemma_pow2_unfold(k);
        lemma_pow2_pos((k - 1) as nat);
        let key = e - (if f == HALF_BITS { 1int } else { 0 });
        let a = (key + n - 1) / n;
        assert(a + 1 == (key + 2 * n - 1) / n) by {
            lemma_fundamental_div_mod(key + n - 1, n);
            let r = (key + n - 1) % n;
            assert(key + 2 * n - 1 == (a + 1) * n + r) by (nonlinear_arith)
                requires
                    key + n - 1 == n * a + r;
            lemma_fundamental_div_mod_converse(key + 2 * n - 1, n, a + 1, (key + n - 1) % n);
        }
        lemma_div_nested(key + 2 * n - 1, n, 2);
        assert(bucket_index(bits, schema) == (key + 2 * n - 1) / (2 * n));
        if schema + 1 == 0 {
            assert(n == 1);
            assert(bucket_index(bits, schema + 1) == (key + 1 - 1) / 1);
            assert((key + 1 - 1) / 1 == key) by (nonlinear_arith);
            assert(a == key) by (nonlinear_arith)
                requires a == (key + n - 1) / n, n == 1;
        }
        assert(bucket_index(bits, schema + 1) == a);
    }
}

/// Counting below a larger value counts at least as many elements.
pub proof fn lemma_count_below_monotonic(s: Seq<u64>, x: int, y: int)
    requires
        x <= y,
    ensures
        count_below(s, x) <= count_below(s, y),
        count_below(s, y) <= s.len(),
    decreases s.len(),
{
    if s.len() > 0 {
        lemma_count_below_monotonic(s.drop_last(), x, y);
    }
}

/// For doubles with the sign bit clear, a larger bit pattern has a larger
/// `frexp` exponent, or the same exponent and a fraction at least as large.
pub proof fn lemma_frexp_ordered(a: u64, b: u64)
    requires
        !is_negative(a),
        !is_negative(b),
        !is_zero(a),
        a <= b,
    ensures
        frexp_exponent(a) < frexp_exponent(b) || (frexp_exponent(a) == frexp_exponent(b)
            && frexp_fraction(a) <= frexp_fraction(b)),
{
    lemma2_to64();
    vstd::arithmetic::power2::lemma2_to64_rest();
    let ea = exponent_field(a);
    let eb = exponent_field(b);
    let ma = mantissa_field(a);
    let mb = mantissa_field(b);
    assert(magnitude_bits(a) == a && magnitude_bits(b) == b);
    assert(a == ea * 0x10_0000_0000_0000 + ma && b == eb * 0x10_0000_0000_0000 + mb);
    assert(ea < eb || (ea == eb && ma <= mb)) by (nonlinear_arith)
        requires
            a == ea * 0x10_0000_0000_0000 + ma,
            b == eb * 0x10_0000_0000_0000 + mb,
            0 <= ma < 0x10_0000_0000_0000,
            0 <= mb < 0x10_0000_0000_0000,
            a <= b;
    let sa = significand(a) as nat;
    let sb = significand(b) as nat;
    assert(sa >= 1);
    assert(sb >= 1);
    lemma_floor_log2_bounds(sa);
    lemma_floor_log2_bounds(sb);
    let la = floor_log2(sa);
    let lb = floor_log2(sb);
    if la > 53 {
        vstd::arithmetic::power2::lemma_pow2_strictly_increases(53, la);
    }
    if lb > 53 {
        vstd::arithmetic::power2::lemma_pow2_strictly_increases(53, lb);
    }
    assert(la <= 52 && lb <= 52);
    if ea >= 1 {
        if la < 52 {
            vstd::arithmetic::power2::lemma_pow2_strictly_increases(la + 1, 52);
        }
        if lb < 52 {
            vstd::arithmetic::power2::lemma_pow2_strictly_increases(lb + 1, 52);
        }
        assert(la == 52 && lb == 52);
        assert(frexp_exponent(a) == ea - 1022 && frexp_exponent(b) == eb - 1022);
        assert(pow2((52 - la) as nat) == 1 && pow2((52 - lb) as nat) == 1);
        assert(sa * pow2((52 - la) as nat) == sa) by (nonlinear_arith)
            requires
                pow2((52 - la) as nat) == 1;
        assert(sb * pow2((52 - lb) as nat) == sb) by (nonlinear_arith)
            requires
                pow2((52 - lb) as nat) == 1;
        assert(frexp_fraction(a) == HALF_BITS + ma && frexp_fraction(b) == HALF_BITS + mb);
    } else if eb >= 1 {
        if la >= 52 {
            if la > 52 {
                vstd::arithmetic::power2::lemma_pow2_strictly_increases(52, la);
            }
        }
        assert(la < 52);
        if lb < 52 {
            vstd::arithmetic::power2::lemma_pow2_strictly_increases(lb + 1, 52);
        }
        assert(lb == 52);
        assert(frexp_exponent(a) == -1074 + la + 1);
        assert(frexp_exponent(b) == eb - 1022);
    } else {
        if la > lb {
            vstd::arithmetic::power2::lemma_pow2_strictly_increases(lb + 1, la);
            if la > lb + 1 {
                assert(pow2(lb + 1) < pow2(la));
            }
        }
        assert(la <= lb);
        assert(frexp_exponent(a) == -1074 + la + 1);
        assert(frexp_exponent(b) == -1074 + lb + 1);
        if la == lb {
            let sh = (52 - la) as nat;
            assert(sa * pow2(sh) <= sb * pow2(sh)) by (nonlinear_arith)
                requires
                    sa <= sb;
            assert(frexp_fraction(a) == HALF_BITS + sa * pow2(sh) - 0x10_0000_0000_0000);
            assert(frexp_fraction(b) == HALF_BITS + sb * pow2(sh) - 0x10_0000_0000_0000);
        }
    }
}

/// Bucket indices never decrease as the magnitude grows: for nonzero
/// doubles `a <= b` with the sign bit clear, `b` not NaN, the bucket of `a`
/// comes no later than the bucket of `b`. (Zero is left out: it has index 0
/// while small positive values have negative indices.)
pub proof fn lemma_bucket_index_monotonic(a: u64, b: u64, schema: int)
    requires
        !is_negative(a),
        !is_negative(b),
        !is_zero(a),
        !is_nan(b),
        a <= b,
        schema == i32::MIN || -30 <= schema <= 8,
    ensures
        bucket_index(a, schema) <= bucket_index(b, schema),
{
    lemma2_to64();
    lemma_fields(a);
    lemma_fields(b);
    assert(magnitude_bits(a) == a && magnitude_bits(b) == b);
    if is_infinite(a) {
        assert(a == 0x7FF0_0000_0000_0000);
        assert(b == a);
        return;
    }
    assert(!is_nan(a)) by {
        if is_nan(a) {
            assert(a > 0x7FF0_0000_0000_0000);
            assert(b > 0x7FF0_0000_0000_0000);
        }
    }
    lemma_fraction_range(a);
    lemma_fraction_range(b);
    lemma_frexp_ordered(a, b);
    let fa = frexp_fraction(a);
    let fb = frexp_fraction(b);
    let ea = frexp_exponent(a);
    let eb = frexp_exponent(b);
    let ia = bucket_index(a, schema);
    assert(-1073 <= ea <= 1024) by {
        let sa = significand(a) as nat;
        lemma_floor_log2_bounds(sa);
        vstd::arithmetic::power2::lemma2_to64_rest();
        if floor_log2(sa) > 53 {
            vstd::arithmetic::power2::lemma_pow2_strictly_increases(53, floor_log2(sa));
        }
    }
    if schema > 0 {
        lemma_bounds_shape(schema);
        let bs = bounds_of(schema);
        let len = bs.len() as int;
        if schema < 8 {
            vstd::arithmetic::power2::lemma_pow2_strictly_increases(schema as nat, 8);
        }
        assert(1 <= len <= 256);
        lemma_count_below_monotonic(bs, fb, fb);
        lemma_count_below_monotonic(bs, fa, fa);
        if !is_infinite(b) && ea == eb {
            lemma_count_below_monotonic(bs, fa, fb);
        }
        let ca = count_below(bs, fa) as int;
        if is_infinite(b) {
            assert(ia <= 256 + 1023 * 256) by (nonlinear_arith)
                requires
                    ia == ca + (ea - 1) * len,
                    0 <= ca <= len <= 256,
                    -1073 <= ea <= 1024;
        } else {
            let cb = count_below(bs, fb) as int;
            if ea < eb {
                assert(ca + (ea - 1) * len <= cb + (eb - 1) * len) by (nonlinear_arith)
                    requires
                        0 <= ca <= len,
                        0 <= cb,
                        ea < eb,
                        len >= 1;
            }
        }
    } else if schema == i32::MIN {
    } else {
        let k = (-schema) as nat;
        let d = pow2(k) as int;
        lemma_pow2_pos(k);
        let ka = ea - (if fa == HALF_BITS { 1int } else { 0 });
        if is_infinite(b) {
            if k < 30 {
                vstd::arithmetic::power2::lemma_pow2_strictly_increases(k, 30);
            }
            if ka + d - 1 >= 0 {
                lemma_div_nonincreasing(ka + d - 1, d);
            } else {
                lemma_div_is_ordered(ka + d - 1, 0, d);
            }
        } else {
            let kb = eb - (if fb == HALF_BITS { 1int } else { 0 });
            assert(ka <= kb);
            lemma_div_is_ordered(ka + d - 1, kb + d - 1, d);
        }
    }
}

/// Where a value falls in its bucket. For a finite nonzero value `v` and
/// `r = bucket_index(v, schema)`:
/// - for a schema `-k <= 0`, exactly `2^((r - 1) * 2^k) < |v| <= 2^(r * 2^k)`;
/// - for a schema `n > 0`, with `|v| == f * 2^e` (`0.5 <= f < 1`) and
///   `j = r - (e - 1) * 2^n` the bucket's place within `[2^(e-1), 2^e)`:
///   `f` lies above boundary `j - 1` and at or below boundary `j`, where
///   boundary `i` lies within four units in the last place of
///   `2^(i / 2^n - 1)`; so, with `u = 2^(e - 53)` the unit in the last place
///   of `f * 2^e`, `2^((r - 1) / 2^n) <= |v| + 3u` for `j > 0` and
///   `|v| - 4u <= 2^(r / 2^n)` for `j < 2^n`, stated for the integer
///   significand `s = f 2^53` as `2^(j - 1 + 53 * 2^n) <= (2s + 6)^(2^n)` and
///   `(2s - 8)^(2^n) <= 2^(j + 53 * 2^n)`; for `j == 0`, `|v|` is exactly
///   `2^(e - 1) = 2^(r / 2^n)`, and for `j == 2^n`, `|v| < 2^e = 2^(r / 2^n)`.
pub proof fn lemma_bucket_bounds(bits: u64, schema: int)
    requires
        !is_nan(bits),
        !is_zero(bits),
        !is_infinite(bits),
        -30 <= schema <= 8,
    ensures
        schema <= 0 ==> ({
            let p = pow2((-schema) as nat) as int;
            let r = bucket_index(bits, schema);
            &&& !magnitude_at_most_pow2(bits, (r - 1) * p)
            &&& magnitude_at_most_pow2(bits, r * p)
        }),
        schema > 0 ==> ({
            let b = bounds_of(schema);
            let f = frexp_fraction(bits);
            let j = bucket_index(bits, schema) - (frexp_exponent(bits) - 1) * b.len();
            &&& b.len() == pow2(schema as nat)
            &&& 0 <= j <= b.len()
            &&& HALF_BITS <= f < 0x3FF0_0000_0000_0000
            &&& j == 0 ==> f == HALF_BITS
            &&& j > 0 ==> b[j - 1] < f
            &&& j < b.len() ==> f <= b[j]
            &&& forall|i: int| 0 <= i < b.len() ==> #[trigger] near_root(b[i], i, schema as nat)
            &&& j > 0 ==> pow2((j - 1 + 53 * b.len()) as nat) <= pow(
                2 * (f - HALF_BITS + 0x10_0000_0000_0000) + 6,
                b.len(),
            )
            &&& j < b.len() ==> pow(2 * (f - HALF_BITS + 0x10_0000_0000_0000) - 8, b.len()) <= pow2(
                (j + 53 * b.len()) as nat,
            )
        }),
{
    lemma_fields(bits);
    lemma_fraction_range(bits);
    if schema <= 0 {
        let k = (-schema) as nat;
        let p = pow2(k) as int;
        lemma_pow2_pos(k);
        let key = ceil_log2_magnitude(bits);
        let r = bucket_index(bits, schema);
        assert(r == (key + p - 1) / p);
        lemma_fundamental_div_mod(key + p - 1, p);
        assert((r - 1) * p < key && key <= r * p) by (nonlinear_arith)
            requires
                key + p - 1 == p * r + (key + p - 1) % p,
                0 <= (key + p - 1) % p < p,
                p > 0;
        lemma_magnitude_at_most_pow2(bits, (r - 1) * p);
        lemma_magnitude_at_most_pow2(bits, r * p);
    } else {
        let b = bounds_of(schema);
        let f = frexp_fraction(bits);
        lemma_bounds_shape(schema);
        lemma_bounds_rounded(schema);
        lemma_count_below_props(b, f);
        let j = count_below(b, f) as int;
        let e = frexp_exponent(bits);
        assert(bucket_index(bits, schema) == j + (e - 1) * b.len());
        lemma_pow2_pos(schema as nat);
        if j == 0 {
            assert(f <= b[0]);
        }
        let n = schema as nat;
        let x = 2 * (f - HALF_BITS + 0x10_0000_0000_0000) - 8;
        let y = 2 * (f - HALF_BITS + 0x10_0000_0000_0000) + 6;
        lemma_pow_two_pow(x, n);
        lemma_pow_two_pow(y, n);
        if j > 0 {
            let lower = b[j - 1];
            assert(near_root(lower, j - 1, n));
            lemma_pow_two_pow(2 * fraction_significand(lower) + 8, n);
            lemma_pow_two_pow_monotonic(2 * fraction_significand(lower) + 8, y, n);
        }
        if j < b.len() {
            let upper = b[j];
            assert(near_root(upper, j, n));
            if j > 0 {
                assert(b[0] < b[j]);
            }
            lemma_pow_two_pow(2 * fraction_significand(upper) - 8, n);
            lemma_pow_two_pow_monotonic(x, 2 * fraction_significand(upper) - 8, n);
        }
    }
}

/// Picks the schema for a bucket factor from `floor(log2(log2(factor)))`:
/// the smallest schema `n` with `2^(2^-n) <= factor`, clamped to `-4..=8`.
pub fn schema_from_floor(floor: i32) -> (schema: i32)
    ensures
        floor <= -8 ==> schema == NATIVE_HISTOGRAM_SCHEMA_MAX,
        floor >= 4 ==> schema == NATIVE_HISTOGRAM_SCHEMA_MIN,
        -8 < floor < 4 ==> schema == -floor,
        NATIVE_HISTOGRAM_SCHEMA_MIN <= schema <= NATIVE_HISTOGRAM_SCHEMA_MAX,
{
    if floor <= -8 {
        NATIVE_HISTOGRAM_SCHEMA_MAX
    } else if floor >= 4 {
        NATIVE_HISTOGRAM_SCHEMA_MIN
    } else {
        -floor
    }
}

} // verus!
