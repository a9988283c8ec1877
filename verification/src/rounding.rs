//! How close the bucket boundaries are to `2^(i / 2^n - 1)`.
//!
//! A boundary `b` in `[0.5, 1)` is `s * 2^-53` for an integer significand
//! `s`. It lies within `w / 2` units in the last place of `2^(i/2^n - 1)`
//! when `(s - w/2) 2^-53 <= 2^(i/2^n - 1) <= (s + w/2) 2^-53`; raised to the
//! power `2^n` and scaled to integers this is
//! `(2s - w)^(2^n) <= 2^(i + 53 * 2^n) <= (2s + w)^(2^n)`. With `w == 1`,
//! `b` is the nearest double.
//!
//! The powers run to thousands of bits, so each check goes through a chain
//! of squarings of short integers, rounded down for a lower bound and up for
//! an upper bound, each step dropping low bits.

use crate::float_bits::HALF_BITS;
use vstd::arithmetic::power::{lemma_pow1, lemma_pow_adds, lemma_pow_positive, pow};
use vstd::arithmetic::power2::{lemma2_to64, lemma_pow2_adds, lemma_pow2_pos, pow2};
use vstd::prelude::*;

verus! {

/// The significand `s` of a double `b` in `[0.5, 1)`: `b == s * 2^-53`.
pub open spec fn fraction_significand(b: u64) -> int {
    b - HALF_BITS + 0x10_0000_0000_0000
}

/// `b` lies within `w / 2` units in the last place of `2^(i / 2^n - 1)`:
/// `(2s - w)^(2^n) <= 2^(i + 53 * 2^n) <= (2s + w)^(2^n)`.
pub open spec fn close_to_root(b: u64, i: int, n: nat, w: int) -> bool {
    let s = fraction_significand(b);
    &&& pow(2 * s - w, pow2(n)) <= pow2((i + 53 * pow2(n)) as nat)
    &&& pow2((i + 53 * pow2(n)) as nat) <= pow(2 * s + w, pow2(n))
}

/// `b` is the double nearest to `2^(i / 2^n - 1)`: within half a unit in
/// the last place.
pub open spec fn rounds_root(b: u64, i: int, n: nat) -> bool {
    close_to_root(b, i, n, 1)
}

/// `b` lies within four units in the last place of `2^(i / 2^n - 1)`.
pub open spec fn near_root(b: u64, i: int, n: nat) -> bool {
    close_to_root(b, i, n, 8)
}

/// `x` raised to the power `2^n`, by repeated squaring.
pub open spec fn pow_two_pow(x: int, n: nat) -> int
    decreases n,
{
    if n == 0 {
        x
    } else {
        let y = pow_two_pow(x, (n - 1) as nat);
        y * y
    }
}

/// `pow_two_pow` is the power `2^n`.
pub proof fn lemma_pow_two_pow(x: int, n: nat)
    ensures
        pow_two_pow(x, n) == pow(x, pow2(n)),
    decreases n,
{
    if n == 0 {
        lemma2_to64();
        lemma_pow1(x);
    } else {
        lemma_pow_two_pow(x, (n - 1) as nat);
        vstd::arithmetic::power2::lemma_pow2_unfold(n);
        lemma_pow_adds(x, pow2((n - 1) as nat), pow2((n - 1) as nat));
    }
}

/// `pow_two_pow` is at least `1` on a base of at least `1`.
proof fn lemma_pow_two_pow_positive(x: int, n: nat)
    requires
        x >= 1,
    ensures
        pow_two_pow(x, n) >= 1,
    decreases n,
{
    if n > 0 {
        lemma_pow_two_pow_positive(x, (n - 1) as nat);
        let y = pow_two_pow(x, (n - 1) as nat);
        assert(y * y >= 1) by (nonlinear_arith)
            requires
                y >= 1;
    }
}

/// Raising to the power `2^n` keeps the order of nonnegative bases.
pub proof fn lemma_pow_two_pow_monotonic(x: int, y: int, n: nat)
    requires
        0 <= x <= y,
    ensures
        0 <= pow_two_pow(x, n) <= pow_two_pow(y, n),
    decreases n,
{
    if n > 0 {
        lemma_pow_two_pow_monotonic(x, y, (n - 1) as nat);
        let a = pow_two_pow(x, (n - 1) as nat);
        let b = pow_two_pow(y, (n - 1) as nat);
        assert(0 <= a * a <= b * b) by (nonlinear_arith)
            requires
                0 <= a <= b;
    }
}

/// One squaring of a lower bound: from `lo * 2^e <= x^(2^k)` and
/// `next * 2^c <= lo^2` follows `next * 2^(2e + c) <= x^(2^(k+1))`.
pub proof fn lemma_chain_lower(x: int, k: nat, lo: int, e: nat, c: nat, next: int)
    requires
        x >= 1,
        lo >= 0,
        lo * pow2(e) <= pow_two_pow(x, k),
        next * pow2(c) <= lo * lo,
    ensures
        next * pow2(2 * e + c) <= pow_two_pow(x, k + 1),
{
    let v = pow_two_pow(x, k);
    let pe = pow2(e) as int;
    let pc = pow2(c) as int;
    lemma_pow2_pos(e);
    lemma_pow2_pos(c);
    lemma_pow2_adds(e, e);
    lemma_pow2_adds(2 * e, c);
    assert(pow2(2 * e + c) == pe * pe * pc) by (nonlinear_arith)
        requires
            pow2(e + e) == pe * pe,
            pow2(2 * e + c) == pow2(2 * e) * pc,
            e + e == 2 * e;
    assert(next * (pe * pe * pc) <= v * v) by (nonlinear_arith)
        requires
            0 <= lo * pe <= v,
            next * pc <= lo * lo,
            lo >= 0,
            pe > 0,
            pc > 0;
}

/// One squaring of an upper bound: from `x^(2^k) <= hi * 2^e` and
/// `hi^2 <= next * 2^c` follows `x^(2^(k+1)) <= next * 2^(2e + c)`.
pub proof fn lemma_chain_upper(x: int, k: nat, hi: int, e: nat, c: nat, next: int)
    requires
        x >= 1,
        pow_two_pow(x, k) <= hi * pow2(e),
        hi * hi <= next * pow2(c),
    ensures
        pow_two_pow(x, k + 1) <= next * pow2(2 * e + c),
{
    let v = pow_two_pow(x, k);
    let pe = pow2(e) as int;
    let pc = pow2(c) as int;
    lemma_pow_two_pow_positive(x, k);
    lemma_pow2_pos(e);
    lemma_pow2_pos(c);
    lemma_pow2_adds(e, e);
    lemma_pow2_adds(2 * e, c);
    assert(pow2(2 * e + c) == pe * pe * pc) by (nonlinear_arith)
        requires
            pow2(e + e) == pe * pe,
            pow2(2 * e + c) == pow2(2 * e) * pc,
            e + e == 2 * e;
    assert(v * v <= next * (pe * pe * pc)) by (nonlinear_arith)
        requires
            1 <= v <= hi * pe,
            hi * hi <= next * pc,
            pe > 0,
            pc > 0;
}

/// The start of both chains: `x^(2^0) == x * 2^0`.
pub proof fn lemma_chain_start(x: int)
    ensures
        pow_two_pow(x, 0) == x * pow2(0),
{
    lemma2_to64();
}

/// Chains that bracket `2^d` prove closeness: the upper chain of `2s - w`
/// ends at or below `2^d` and the lower chain of `2s + w` at or above it,
/// with `d + e == i + 53 * 2^n`.
pub proof fn lemma_chains_round(
    b: u64,
    i: int,
    n: nat,
    w: int,
    x: int,
    y: int,
    hi: int,
    lo: int,
    e: nat,
    d: nat,
)
    requires
        b >= HALF_BITS,
        i >= 0,
        x == 2 * fraction_significand(b) - w,
        y == 2 * fraction_significand(b) + w,
        pow_two_pow(x, n) <= hi * pow2(e),
        lo * pow2(e) <= pow_two_pow(y, n),
        hi <= pow2(d),
        pow2(d) <= lo,
        d + e == i + 53 * pow2(n),
    ensures
        close_to_root(b, i, n, w),
{
    lemma_pow_two_pow(x, n);
    lemma_pow_two_pow(y, n);
    lemma_pow2_adds(d, e);
    let pe = pow2(e) as int;
    lemma_pow2_pos(e);
    assert(hi * pe <= pow2(d) * pe) by (nonlinear_arith)
        requires
            hi <= pow2(d),
            pe > 0;
    assert(pow2(d) * pe <= lo * pe) by (nonlinear_arith)
        requires
            pow2(d) <= lo,
            pe > 0;
    assert((d + e) as nat == (i + 53 * pow2(n)) as nat);
}

/// Closeness carries over to the next schema, at twice the index.
pub proof fn lemma_close_to_root_refine(b: u64, i: int, n: nat, w: int)
    requires
        close_to_root(b, i, n, w),
        b >= HALF_BITS,
        i >= 0,
        0 <= w <= 8,
    ensures
        close_to_root(b, 2 * i, n + 1, w),
{
    let s = fraction_significand(b);
    let m = pow2(n);
    vstd::arithmetic::power2::lemma_pow2_unfold(n + 1);
    lemma_pow_adds(2 * s - w, m, m);
    lemma_pow_adds(2 * s + w, m, m);
    let t = (i + 53 * m) as nat;
    lemma_pow2_adds(t, t);
    assert((2 * i + 53 * pow2(n + 1)) as nat == t + t);
    let a = pow(2 * s - w, m);
    let c = pow(2 * s + w, m);
    let p = pow2(t);
    lemma_pow_positive(2 * s - w, m);
    assert(a * a <= p * p && p * p <= c * c) by (nonlinear_arith)
        requires
            0 < a <= p,
            p <= c;
}

/// A closer bound implies a looser one.
pub proof fn lemma_close_to_root_widen(b: u64, i: int, n: nat, w1: int, w2: int)
    requires
        close_to_root(b, i, n, w1),
        b >= HALF_BITS,
        0 <= w1 <= w2 <= 8,
    ensures
        close_to_root(b, i, n, w2),
{
    let s = fraction_significand(b);
    lemma_pow_two_pow(2 * s - w1, n);
    lemma_pow_two_pow(2 * s - w2, n);
    lemma_pow_two_pow(2 * s + w1, n);
    lemma_pow_two_pow(2 * s + w2, n);
    lemma_pow_two_pow_monotonic(2 * s - w2, 2 * s - w1, n);
    lemma_pow_two_pow_monotonic(2 * s + w1, 2 * s + w2, n);
}

} // verus!
