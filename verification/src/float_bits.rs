//! IEEE-754 binary64 values, read from their bit patterns.
//!
//! A double with bit pattern `b` has a sign bit, an 11-bit exponent field and
//! a 52-bit mantissa field. A finite double is `±significand * 2^scale`,
//! where for a biased exponent `E > 0` the significand is the mantissa with
//! the hidden bit `2^52` added and the scale is `E - 1075`, and for `E == 0`
//! (zero and subnormal numbers) the significand is the mantissa and the scale
//! is `-1074`. An exponent field of `0x7FF` marks infinities and NaNs.

use vstd::arithmetic::power2::{lemma2_to64, lemma2_to64_rest, lemma_pow2_adds, lemma_pow2_strictly_increases, lemma_pow2_unfold, pow2};
use vstd::prelude::*;

verus! {

/// The sign bit.
pub const SIGN_BIT: u64 = 0x8000_0000_0000_0000;

/// All bits but the sign bit.
pub const MAGNITUDE_MASK: u64 = 0x7FFF_FFFF_FFFF_FFFF;

/// The 52 mantissa bits.
pub const MANTISSA_MASK: u64 = 0x000F_FFFF_FFFF_FFFF;

/// The hidden bit of a normal significand, `2^52`.
pub const HIDDEN_BIT: u64 = 0x0010_0000_0000_0000;

/// Bit pattern of `0.5`: sign 0, biased exponent `0x3FE`, mantissa 0.
pub const HALF_BITS: u64 = 0x3FE0_0000_0000_0000;

/// The bits below the sign bit.
pub open spec fn magnitude_bits(b: u64) -> int {
    (b as int) % 0x8000_0000_0000_0000
}

/// The biased exponent field.
pub open spec fn exponent_field(b: u64) -> int {
    magnitude_bits(b) / 0x10_0000_0000_0000
}

/// The mantissa field.
pub open spec fn mantissa_field(b: u64) -> int {
    (b as int) % 0x10_0000_0000_0000
}

/// The sign bit is set.
pub open spec fn is_negative(b: u64) -> bool {
    b >= 0x8000_0000_0000_0000
}

/// `b` encodes a NaN.
pub open spec fn is_nan(b: u64) -> bool {
    exponent_field(b) == 0x7FF && mantissa_field(b) != 0
}

/// `b` encodes an infinity.
pub open spec fn is_infinite(b: u64) -> bool {
    exponent_field(b) == 0x7FF && mantissa_field(b) == 0
}

/// `b` encodes `+0.0` or `-0.0`.
pub open spec fn is_zero(b: u64) -> bool {
    magnitude_bits(b) == 0
}

/// The integer significand: `|value| == significand * 2^binary_scale` for a finite value.
pub open spec fn significand(b: u64) -> int {
    if exponent_field(b) == 0 {
        mantissa_field(b)
    } else {
        mantissa_field(b) + 0x10_0000_0000_0000
    }
}

/// The power of two that scales the significand.
pub open spec fn binary_scale(b: u64) -> int {
    if exponent_field(b) == 0 {
        -1074
    } else {
        exponent_field(b) - 1075
    }
}

/// The position of the highest set bit of a positive integer.
pub open spec fn floor_log2(n: nat) -> nat
    decreases n,
{
    if n < 2 {
        0
    } else {
        1 + floor_log2(n / 2)
    }
}

/// The exponent `e` with `|value| == f * 2^e` and `0.5 <= f < 1`.
pub open spec fn frexp_exponent(b: u64) -> int {
    binary_scale(b) + floor_log2(significand(b) as nat) + 1
}

/// The bit pattern of the fraction `f` with `|value| == f * 2^e` and
/// `0.5 <= f < 1`: biased exponent `0x3FE` and the significand shifted left
/// until its highest bit is the hidden bit.
pub open spec fn frexp_fraction(b: u64) -> int {
    let l = floor_log2(significand(b) as nat);
    HALF_BITS + significand(b) * pow2((52 - l) as nat) - 0x10_0000_0000_0000
}

/// `floor_log2(n)` is the `l` with `2^l <= n < 2^(l+1)`.
pub proof fn lemma_floor_log2(n: nat, l: nat)
    requires
        pow2(l) <= n < pow2(l + 1),
    ensures
        floor_log2(n) == l,
    decreases l,
{
    lemma2_to64();
    lemma_pow2_unfold(l + 1);
    if l > 0 {
        lemma_pow2_unfold(l);
        lemma_floor_log2(n / 2, (l - 1) as nat);
    }
}

/// `2^floor_log2(n) <= n < 2^(floor_log2(n) + 1)` for positive `n`.
pub proof fn lemma_floor_log2_bounds(n: nat)
    requires
        n >= 1,
    ensures
        pow2(floor_log2(n)) <= n < pow2(floor_log2(n) + 1),
    decreases n,
{
    lemma2_to64();
    if n >= 2 {
        lemma_floor_log2_bounds(n / 2);
        lemma_pow2_unfold(floor_log2(n / 2) + 1);
        lemma_pow2_unfold(floor_log2(n / 2) + 2);
    }
}

/// The fraction of a nonzero double lies in `[0.5, 1)`: its bit pattern has
/// biased exponent `0x3FE`.
pub proof fn lemma_fraction_range(b: u64)
    requires
        !is_zero(b),
    ensures
        HALF_BITS <= frexp_fraction(b) < HALF_BITS + HIDDEN_BIT,
{
    lemma2_to64();
    lemma2_to64_rest();
    let sig = significand(b) as nat;
    assert(sig >= 1);
    lemma_floor_log2_bounds(sig);
    let l = floor_log2(sig);
    assert(sig < pow2(53));
    if l > 52 {
        lemma_pow2_strictly_increases(53, l);
    }
    let sh = (52 - l) as nat;
    lemma_pow2_adds(l, sh);
    lemma_pow2_adds(l + 1, sh);
    assert(pow2(52) <= sig * pow2(sh) < pow2(53)) by (nonlinear_arith)
        requires
            pow2(l) <= sig < pow2(l + 1),
            pow2(l + sh) == pow2(l) * pow2(sh),
            pow2(l + 1 + sh) == pow2(l + 1) * pow2(sh),
            l + sh == 52,
            pow2(sh) > 0;
}

/// `|value| <= 2^m` for the finite double with bit pattern `b`, compared
/// exactly through its significand and scale.
pub open spec fn magnitude_at_most_pow2(b: u64, m: int) -> bool {
    let a = significand(b);
    let s = binary_scale(b);
    if s <= m {
        a <= pow2((m - s) as nat)
    } else {
        a * pow2((s - m) as nat) <= 1
    }
}

/// `ceil(log2 |value|)` of a finite nonzero double: its `frexp` exponent,
/// less one when the fraction is exactly `0.5`.
pub open spec fn ceil_log2_magnitude(b: u64) -> int {
    frexp_exponent(b) - (if frexp_fraction(b) == HALF_BITS { 1int } else { 0 })
}

/// A finite nonzero double is at most `2^m` exactly when `m` is at least
/// the ceiling of its base-2 logarithm.
pub proof fn lemma_magnitude_at_most_pow2(b: u64, m: int)
    requires
        !is_zero(b),
        exponent_field(b) != 0x7FF,
    ensures
        magnitude_at_most_pow2(b, m) <==> ceil_log2_magnitude(b) <= m,
{
    lemma2_to64();
    lemma2_to64_rest();
    let a = significand(b);
    let s = binary_scale(b);
    assert(a >= 1);
    lemma_floor_log2_bounds(a as nat);
    let l = floor_log2(a as nat);
    assert(a < pow2(53));
    if l > 52 {
        lemma_pow2_strictly_increases(53, l);
    }
    let sh = (52 - l) as nat;
    lemma_pow2_adds(l, sh);
    vstd::arithmetic::power2::lemma_pow2_pos(sh);
    let c: int = if a == pow2(l) { l as int } else { l + 1int };
    assert(frexp_fraction(b) == HALF_BITS <==> a == pow2(l)) by {
        if a != pow2(l) {
            assert(a * pow2(sh) != pow2(l) * pow2(sh)) by (nonlinear_arith)
                requires
                    a != pow2(l),
                    pow2(sh) > 0;
        }
    }
    assert(ceil_log2_magnitude(b) == s + c);
    if s <= m {
        let t = (m - s) as nat;
        if c <= t {
            if a == pow2(l) {
                if l < t {
                    lemma_pow2_strictly_increases(l, t);
                }
            } else if l + 1 < t {
                lemma_pow2_strictly_increases(l + 1, t);
            }
        } else {
            if a == pow2(l) {
                lemma_pow2_strictly_increases(t, l);
            } else if t < l {
                lemma_pow2_strictly_increases(t, l);
            }
        }
    } else {
        let t = (s - m) as nat;
        lemma_pow2_strictly_increases(0, t);
        assert(a * pow2(t) > 1) by (nonlinear_arith)
            requires
                a >= 1,
                pow2(t) > 1;
    }
}

/// `b` encodes a finite value (not an infinity and not a NaN).
pub open spec fn is_finite(b: u64) -> bool {
    exponent_field(b) != 0x7FF
}

/// `|value| * 2^1074` for a finite double: an integer, since no finite
/// double has a scale below `-1074`.
pub open spec fn magnitude_scaled(b: u64) -> int {
    significand(b) * pow2((binary_scale(b) + 1074) as nat)
}

/// `value * 2^1074` for a finite double: the scaled magnitude with the sign.
pub open spec fn value_scaled(b: u64) -> int {
    if is_negative(b) {
        -magnitude_scaled(b)
    } else {
        magnitude_scaled(b)
    }
}

/// The magnitude bits are the exponent field above the mantissa field.
pub proof fn lemma_magnitude_split(b: u64)
    ensures
        magnitude_bits(b) == exponent_field(b) * 0x10_0000_0000_0000 + mantissa_field(b),
        0 <= mantissa_field(b) < 0x10_0000_0000_0000,
{
    lemma_fields(b);
    assert((b & 0x7FFF_FFFF_FFFF_FFFFu64) as int == ((b >> 52u64) & 0x7FFu64) as int * 0x10_0000_0000_0000 + (b
        & 0x000F_FFFF_FFFF_FFFFu64) as int) by (bit_vector);
}

/// The scaled magnitude of a finite double is zero exactly for the zeros
/// and positive otherwise.
pub proof fn lemma_magnitude_scaled_sign(b: u64)
    requires
        is_finite(b),
    ensures
        magnitude_scaled(b) >= 0,
        magnitude_scaled(b) == 0 <==> is_zero(b),
{
    lemma_magnitude_split(b);
    vstd::arithmetic::power2::lemma_pow2_pos((binary_scale(b) + 1074) as nat);
    let p = pow2((binary_scale(b) + 1074) as nat) as int;
    let sig = significand(b);
    assert(sig >= 0);
    assert(sig * p >= 0 && (sig * p == 0 <==> sig == 0)) by (nonlinear_arith)
        requires
            sig >= 0,
            p > 0;
}

/// Among finite doubles, a larger magnitude bit pattern is a larger
/// magnitude: the scaled magnitudes keep the order of the bit patterns.
pub proof fn lemma_magnitude_scaled_strict(a: u64, b: u64)
    requires
        is_finite(a),
        is_finite(b),
        magnitude_bits(a) < magnitude_bits(b),
    ensures
        magnitude_scaled(a) < magnitude_scaled(b),
{
    lemma2_to64();
    lemma2_to64_rest();
    lemma_magnitude_split(a);
    lemma_magnitude_split(b);
    let c: int = 0x10_0000_0000_0000;
    let ea = exponent_field(a);
    let eb = exponent_field(b);
    let ma = mantissa_field(a);
    let mb = mantissa_field(b);
    lemma_fields(a);
    lemma_fields(b);
    assert(ea < eb || (ea == eb && ma < mb)) by (nonlinear_arith)
        requires
            ea * c + ma < eb * c + mb,
            0 <= ma < c,
            0 <= mb < c,
            c > 0;
    if ea == eb {
        let p = pow2((binary_scale(a) + 1074) as nat) as int;
        assert(binary_scale(a) == binary_scale(b));
        vstd::arithmetic::power2::lemma_pow2_pos((binary_scale(a) + 1074) as nat);
        assert(significand(a) < significand(b));
        assert(significand(a) * p < significand(b) * p) by (nonlinear_arith)
            requires
                significand(a) < significand(b),
                p > 0;
    } else {
        let pb = pow2((eb - 1) as nat) as int;
        vstd::arithmetic::power2::lemma_pow2_pos((eb - 1) as nat);
        assert(c * pb <= (mb + c) * pb) by (nonlinear_arith)
            requires
                mb >= 0,
                pb > 0;
        assert(magnitude_scaled(b) == (mb + c) * pb);
        if ea == 0 {
            assert(magnitude_scaled(a) == ma) by {
                assert(binary_scale(a) == -1074);
                assert(significand(a) == ma);
                let p0 = pow2((binary_scale(a) + 1074) as nat) as int;
                assert(p0 == 1);
                assert(ma * p0 == ma) by (nonlinear_arith)
                    requires
                        p0 == 1;
            }
            assert(c <= c * pb) by (nonlinear_arith)
                requires
                    pb >= 1,
                    c > 0;
        } else {
            let pa = pow2((ea - 1) as nat) as int;
            vstd::arithmetic::power2::lemma_pow2_pos((ea - 1) as nat);
            lemma_pow2_unfold(ea as nat);
            if ea < eb - 1 {
                lemma_pow2_strictly_increases(ea as nat, (eb - 1) as nat);
            }
            assert(magnitude_scaled(a) == (ma + c) * pa);
            assert((ma + c) * pa < c * pb) by (nonlinear_arith)
                requires
                    ma < c,
                    pa > 0,
                    2 * pa <= pb,
                    c > 0;
        }
    }
}

/// Two finite doubles compare by magnitude bit patterns exactly as their
/// magnitudes compare.
pub proof fn lemma_magnitude_order(a: u64, b: u64)
    requires
        is_finite(a),
        is_finite(b),
    ensures
        magnitude_bits(a) <= magnitude_bits(b) <==> magnitude_scaled(a) <= magnitude_scaled(b),
        magnitude_bits(a) == magnitude_bits(b) <==> magnitude_scaled(a) == magnitude_scaled(b),
{
    lemma_magnitude_split(a);
    lemma_magnitude_split(b);
    if magnitude_bits(a) < magnitude_bits(b) {
        lemma_magnitude_scaled_strict(a, b);
    } else if magnitude_bits(b) < magnitude_bits(a) {
        lemma_magnitude_scaled_strict(b, a);
    } else {
        assert(exponent_field(a) == exponent_field(b)) by (nonlinear_arith)
            requires
                exponent_field(a) * 0x10_0000_0000_0000 + mantissa_field(a) == exponent_field(b)
                    * 0x10_0000_0000_0000 + mantissa_field(b),
                0 <= mantissa_field(a) < 0x10_0000_0000_0000,
                0 <= mantissa_field(b) < 0x10_0000_0000_0000;
    }
}

/// The fields of `b` as the bit operations read them.
pub proof fn lemma_fields(b: u64)
    ensures
        magnitude_bits(b) == (b & MAGNITUDE_MASK) as int,
        exponent_field(b) == ((b >> 52u64) & 0x7FF) as int,
        mantissa_field(b) == (b & MANTISSA_MASK) as int,
        is_negative(b) == (b & SIGN_BIT != 0),
        0 <= exponent_field(b) <= 0x7FF,
        magnitude_bits(b & MAGNITUDE_MASK) == magnitude_bits(b),
        mantissa_field(b & MAGNITUDE_MASK) == mantissa_field(b),
{
    assert((b & 0x7FFF_FFFF_FFFF_FFFFu64) as int == (b as int) % 0x8000_0000_0000_0000) by (bit_vector);
    assert(((b >> 52u64) & 0x7FFu64) as int == ((b as int) % 0x8000_0000_0000_0000) / 0x10_0000_0000_0000) by (bit_vector);
    assert((b & 0x000F_FFFF_FFFF_FFFFu64) as int == (b as int) % 0x10_0000_0000_0000) by (bit_vector);
    assert((b & 0x8000_0000_0000_0000u64 != 0) == (b >= 0x8000_0000_0000_0000u64)) by (bit_vector);
    assert(((b >> 52u64) & 0x7FFu64) <= 0x7FF) by (bit_vector);
    let m = b & 0x7FFF_FFFF_FFFF_FFFFu64;
    assert((m as int) % 0x8000_0000_0000_0000 == (b as int) % 0x8000_0000_0000_0000) by (bit_vector)
        requires m == b & 0x7FFF_FFFF_FFFF_FFFFu64;
    assert((m as int) % 0x10_0000_0000_0000 == (b as int) % 0x10_0000_0000_0000) by (bit_vector)
        requires m == b & 0x7FFF_FFFF_FFFF_FFFFu64;
}

/// Splits a double into a fraction in `[0.5, 1)` and a power of two, as C's
/// `frexp` does, working on bit patterns: for a nonzero value with bit
/// pattern `bits` the result is `(f, e)` where `f` is the bit pattern of the
/// fraction and `|value| == fraction * 2^e`. Zero gives `(0, 0)`. The sign
/// is ignored. Subnormal values are normalized first, so the fraction always
/// has the hidden bit set.
pub fn frexp(bits: u64) -> (r: (u64, i32))
    ensures
        is_zero(bits) ==> r.0 == 0 && r.1 == 0,
        !is_zero(bits) ==> r.0 == frexp_fraction(bits) && r.1 == frexp_exponent(bits),
        !is_zero(bits) && exponent_field(bits) != 0x7FF ==> -1073 <= r.1 <= 1024,
{
    proof {
        lemma_fields(bits);
        lemma2_to64();
        lemma2_to64_rest();
    }
    if bits & MAGNITUDE_MASK == 0 {
        return (0, 0);
    }
    let exp_bits = (bits >> 52u64) & 0x7FF;
    let mant = bits & MANTISSA_MASK;
    if exp_bits == 0 {
        // Subnormal: shift the significand up to the hidden bit.
        let mut sig: u64 = mant;
        let mut shift: i32 = 0;
        assert(pow2(0) == 1);
        assert(sig == mant * pow2(shift as nat)) by (nonlinear_arith)
            requires sig == mant, shift == 0, pow2(0) == 1;
        while sig < HIDDEN_BIT
            invariant
                0 < mant < HIDDEN_BIT,
                0 <= shift <= 52,
                0 < sig,
                sig == mant * pow2(shift as nat),
                pow2(shift as nat) <= sig,
                sig < 2 * HIDDEN_BIT,
            decreases 52 - shift,
        {
            proof {
                lemma2_to64_rest();
                lemma_pow2_unfold((shift + 1) as nat);
                if shift == 52 {
                    assert(pow2(52) == HIDDEN_BIT);
                }
            }
            sig = sig * 2;
            shift = shift + 1;
            proof {
                assert(sig == mant * pow2(shift as nat)) by (nonlinear_arith)
                    requires
                        sig == 2 * (mant * pow2((shift - 1) as nat)),
                        pow2(shift as nat) == 2 * pow2((shift - 1) as nat);
            }
        }
        proof {
            lemma2_to64_rest();
            let l = (52 - shift) as nat;
            lemma_pow2_adds(l, shift as nat);
            lemma_pow2_adds(l + 1, shift as nat);
            assert(pow2(52) == HIDDEN_BIT);
            assert(pow2(53) == 2 * HIDDEN_BIT);
            assert(pow2(l) <= mant < pow2(l + 1)) by (nonlinear_arith)
                requires
                    sig == mant * pow2(shift as nat),
                    HIDDEN_BIT <= sig < 2 * HIDDEN_BIT,
                    pow2(l) * pow2(shift as nat) == HIDDEN_BIT,
                    pow2(l + 1) * pow2(shift as nat) == 2 * HIDDEN_BIT,
                    pow2(shift as nat) > 0;
            lemma_floor_log2(mant as nat, l);
            assert((sig & MANTISSA_MASK) | HALF_BITS == sig - HIDDEN_BIT + HALF_BITS) by (bit_vector)
                requires
                    0x10_0000_0000_0000u64 <= sig < 0x20_0000_0000_0000u64;
        }
        return ((sig & MANTISSA_MASK) | HALF_BITS, -1021 - shift);
    }
    proof {
        assert(pow2(52) == HIDDEN_BIT);
        assert(pow2(53) == 2 * HIDDEN_BIT);
        lemma_floor_log2(significand(bits) as nat, 52);
        assert(significand(bits) == mant + HIDDEN_BIT);
        assert(frexp_fraction(bits) == HALF_BITS + (mant + HIDDEN_BIT) * pow2(0) - HIDDEN_BIT);
        assert(frexp_fraction(bits) == mant + HALF_BITS);
        assert(mant | HALF_BITS == mant + HALF_BITS) by (bit_vector)
            requires
                mant < 0x10_0000_0000_0000u64;
    }
    (mant | HALF_BITS, exp_bits as i32 - 1022)
}

} // verus!
