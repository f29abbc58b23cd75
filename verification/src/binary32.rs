//! Single-precision (IEEE-754 binary32) rounding, computed on exact integer
//! ratios.  A few displayed numbers are defined by what a 32-bit float holds:
//! a ratio is rounded to a 24-bit significand, halves to even, and what is
//! shown is derived from that rounded value.  Every ratio here is positive
//! and below 2^24, so neither subnormals nor overflow arise.

use vstd::prelude::*;
use crate::text::div_round_even;

verus! {

/// `2^k`.
pub open spec fn pow2n(k: nat) -> nat
    decreases k,
{
    if k == 0 {
        1
    } else {
        2 * pow2n((k - 1) as nat)
    }
}

/// The least `j >= k` (below 150) with `a * 2^j >= 2^23 * b`.
pub open spec fn scale_from(a: nat, b: nat, k: nat) -> nat
    decreases 150 - k,
{
    if k >= 150 || a * pow2n(k) >= pow2n(23) * b {
        k
    } else {
        scale_from(a, b, k + 1)
    }
}

/// The binary exponent that brings `a / b` into the significand range
/// `[2^23, 2^24)`, for a ratio below `2^24`.
pub open spec fn scale(a: nat, b: nat) -> nat {
    scale_from(a, b, 0)
}

/// The 24-bit significand of `a / b` rounded to single precision (halves to
/// even): the float's value is `single_sig(a, b) / 2^scale(a, b)`.
pub open spec fn single_sig(a: nat, b: nat) -> nat {
    div_round_even((a * pow2n(scale(a, b))) as int, b as int) as nat
}

/// `n / d` rounded to the nearest whole number, halves to even.
fn round_div_even_wide(n: u128, d: u128) -> (r: u128)
    requires
        0 < d,
    ensures
        r == div_round_even(n as int, d as int),
        r <= n,
{
    let q = n / d;
    let r = n % d;
    assert(n == d * q + r && q <= n) by (nonlinear_arith)
        requires
            q == n / d,
            r == n % d,
            d > 0,
    ;
    if r > d - r || (r == d - r && q % 2 == 1) {
        assert(q < n) by (nonlinear_arith)
            requires
                n == d * q + r,
                0 < r < d,
        ;
        q + 1
    } else {
        q
    }
}

/// Rounds `a / b` to single precision: the result is the significand `m`
/// and the exponent `k` of the float `m / 2^k`.
pub fn single_round(a: u64, b: u64) -> (r: (u64, u32))
    requires
        0 < a < 0x100_0000_0000_0000,
        0 < b < 0x100_0000_0000_0000,
    ensures
        r.1 == scale(a as nat, b as nat),
        r.0 == single_sig(a as nat, b as nat),
        r.1 < 80,
        r.1 > 0 ==> r.0 <= 0x100_0000,
        r.1 == 0 ==> a >= 0x80_0000 * b,
        r.1 == 0 ==> r.0 <= a,
        r.0 >= 0x80_0000,
{
    let target: u128 = b as u128 * 0x80_0000;
    let mut k: u32 = 0;
    let mut x: u128 = a as u128;
    proof {
        reveal_with_fuel(pow2n, 24);
        assert(pow2n(0) == 1);
        assert(a * pow2n(0) == a);
    }
    while x < target
        invariant
            0 < a < 0x100_0000_0000_0000,
            0 < b < 0x100_0000_0000_0000,
            target == b * 0x80_0000,
            pow2n(23) == 0x80_0000,
            x == a * pow2n(k as nat),
            x >= pow2n(k as nat),
            x > 0,
            k < 80,
            k > 0 ==> x < 2 * target,
            x < 0x1_0000_0000_0000_0000_0000,
            scale_from(a as nat, b as nat, k as nat) == scale(a as nat, b as nat),
        decreases 80 - k,
    {
        assert(pow2n((k + 1) as nat) == 2 * pow2n(k as nat));
        assert(a * pow2n((k + 1) as nat) == 2 * (a * pow2n(k as nat))) by (nonlinear_arith)
            requires
                pow2n((k + 1) as nat) == 2 * pow2n(k as nat),
        ;
        assert(k < 79) by {
            if k >= 79 {
                lemma_pow2n_mono(79, k as nat);
                lemma_pow2n_79();
            }
        }
        x = x * 2;
        k = k + 1;
    }
    assert(scale_from(a as nat, b as nat, k as nat) == k);
    let m = round_div_even_wide(x, b as u128);
    proof {
        lemma_round_ge(x as int, b as int, 0x80_0000);
    }
    if k > 0 {
        assert(m <= 0x100_0000) by (nonlinear_arith)
            requires
                m == div_round_even(x as int, b as int),
                x < 2 * (b * 0x80_0000),
                b > 0,
        {
            assert((x as int) / (b as int) < 0x100_0000);
        }
    }
    (m as u64, k)
}

/// `2^k` as a wide machine word.
pub fn pow2_wide(k: u32) -> (p: u128)
    requires
        k < 80,
    ensures
        p == pow2n(k as nat),
        1 <= p <= 0x8000_0000_0000_0000_0000,
{
    let mut p: u128 = 1;
    let mut i: u32 = 0;
    while i < k
        invariant
            i <= k < 80,
            p == pow2n(i as nat),
            1 <= p,
        decreases k - i,
    {
        proof {
            lemma_pow2n_mono(i as nat, 79);
            lemma_pow2n_79();
        }
        p = p * 2;
        i = i + 1;
    }
    proof {
        lemma_pow2n_mono(k as nat, 79);
        lemma_pow2n_79();
    }
    p
}

/// `a / b` rounded to single precision, then rounded up to a whole number
/// (`f32::ceil`).
pub open spec fn single_ceil_spec(a: nat, b: nat) -> nat {
    if a == 0 {
        0
    } else {
        let k = pow2n(scale(a, b));
        ((single_sig(a, b) + k - 1) as int / k as int) as nat
    }
}

/// `a / b` rounded to single precision, then shown with one decimal (the
/// `{:.1}` format rounds the float's exact value, halves to even): the
/// number of tenths shown.
pub open spec fn single_tenths_spec(a: nat, b: nat) -> nat {
    if a == 0 {
        0
    } else {
        div_round_even((10 * single_sig(a, b)) as int, pow2n(scale(a, b)) as int) as nat
    }
}

/// `a / b` rounded to single precision, then shown with no decimal (the
/// `{:.0}` format, halves to even).
pub open spec fn single_whole_spec(a: nat, b: nat) -> nat {
    if a == 0 {
        0
    } else {
        div_round_even(single_sig(a, b) as int, pow2n(scale(a, b)) as int) as nat
    }
}

/// The ratio `a / b` (at most 1) rounded to single precision, multiplied by
/// 100 and rounded again: the percentage `a as f32 / b as f32 * 100.0`, as
/// the ratio `pct_num(a, b) / pct_den(a, b)`.
pub open spec fn pct_num(a: nat, b: nat) -> nat {
    100 * single_sig(a, b)
}

pub open spec fn pct_den(a: nat, b: nat) -> nat {
    pow2n(scale(a, b))
}

/// Ceiling of `a / b` computed in single precision.
pub fn single_ceil(a: u64, b: u64) -> (r: u64)
    requires
        a < 0x100_0000_0000_0000,
        0 < b < 0x100_0000_0000_0000,
    ensures
        r == single_ceil_spec(a as nat, b as nat),
{
    if a == 0 {
        return 0;
    }
    let (m, k) = single_round(a, b);
    let p = pow2_wide(k);
    let n = m as u128 + p - 1;
    assert(n / p <= m) by (nonlinear_arith)
        requires
            n == m + p - 1,
            p >= 1,
    ;
    (n / p) as u64
}

/// Tenths shown (`{:.1}`) for `a / b` computed in single precision.
pub fn single_tenths(a: u64, b: u64) -> (r: u64)
    requires
        a < 0x100_0000_0000_0000,
        0 < b < 0x100_0000_0000_0000,
    ensures
        r == single_tenths_spec(a as nat, b as nat),
{
    if a == 0 {
        return 0;
    }
    let (m, k) = single_round(a, b);
    let p = pow2_wide(k);
    round_div_even_wide(10 * m as u128, p) as u64
}

/// Whole number shown (`{:.0}`) for `a / b` computed in single precision.
pub fn single_whole(a: u64, b: u64) -> (r: u64)
    requires
        a < 0x100_0000_0000_0000,
        0 < b < 0x100_0000_0000_0000,
    ensures
        r == single_whole_spec(a as nat, b as nat),
{
    if a == 0 {
        return 0;
    }
    let (m, k) = single_round(a, b);
    let p = pow2_wide(k);
    round_div_even_wide(m as u128, p) as u64
}

/// The percentage `a as f32 / b as f32 * 100.0` (for `0 < a <= b`) as an
/// exact ratio `(num, den)` of `pct_num` over `pct_den`, with `den` a power
/// of two.
pub fn single_percent(a: u64, b: u64) -> (r: (u64, u64))
    requires
        0 < a <= b,
        b < 0x1_0000_0000,
    ensures
        r.0 == pct_num(a as nat, b as nat),
        r.1 == pct_den(a as nat, b as nat),
        0 < r.1 < 0x100_0000_0000_0000,
        r.0 < 0x100_0000_0000,
{
    let (m, k) = single_round(a, b);
    proof {
        if k == 0 {
            assert(a >= 0x80_0000 * b);
            assert(false);
        }
        lemma_scale_small(a as nat, b as nat);
    }
    let p = pow2_wide(k);
    (100 * m, p as u64)
}

/// A ratio of at least `1 / 2^32` needs an exponent of at most 55.
proof fn lemma_scale_small(a: nat, b: nat)
    requires
        a >= 1,
        b < 0x1_0000_0000,
    ensures
        scale(a, b) <= 55,
        pow2n(scale(a, b)) <= 0x80_0000_0000_0000,
{
    reveal_with_fuel(pow2n, 56);
    assert(a * pow2n(55) >= pow2n(23) * b) by (nonlinear_arith)
        requires
            a >= 1,
            b < 0x1_0000_0000,
            pow2n(55) == 0x80_0000_0000_0000,
            pow2n(23) == 0x80_0000,
    ;
    lemma_scale_at_most(a, b, 0, 55);
    lemma_pow2n_mono(scale(a, b), 55);
}

/// `a / b` rounded to single precision, then rounded to a whole number with
/// halves away from zero (`f32::round`).
pub open spec fn single_rounded_spec(a: nat, b: nat) -> nat {
    if a == 0 {
        0
    } else {
        ((2 * single_sig(a, b) + pow2n(scale(a, b))) as int / (2 * pow2n(scale(a, b))) as int) as nat
    }
}

/// Tenths shown (`{:.1}`) of the percentage `a as f32 / b as f32 * 100.0`.
pub open spec fn pct_tenths(a: nat, b: nat) -> nat {
    if a == 0 {
        0
    } else {
        single_tenths_spec(pct_num(a, b), pct_den(a, b))
    }
}

/// Whole number shown (`{:.0}`) of the percentage `a as f32 / b as f32 * 100.0`.
pub open spec fn pct_whole(a: nat, b: nat) -> nat {
    if a == 0 {
        0
    } else {
        single_whole_spec(pct_num(a, b), pct_den(a, b))
    }
}

/// `(a as f32 / b as f32 * 100.0).round()`.
pub open spec fn pct_rounded(a: nat, b: nat) -> nat {
    if a == 0 {
        0
    } else {
        single_rounded_spec(pct_num(a, b), pct_den(a, b))
    }
}

/// `a / b` computed in single precision and rounded half away from zero.
pub fn single_rounded(a: u64, b: u64) -> (r: u64)
    requires
        a < 0x100_0000_0000_0000,
        0 < b < 0x100_0000_0000_0000,
    ensures
        r == single_rounded_spec(a as nat, b as nat),
{
    if a == 0 {
        return 0;
    }
    let (m, k) = single_round(a, b);
    let p = pow2_wide(k);
    let n = 2 * m as u128 + p;
    let d = 2 * p;
    assert(n / d <= m) by (nonlinear_arith)
        requires
            n == 2 * m + p,
            d == 2 * p,
            p >= 1,
    ;
    (n / d) as u64
}

/// Tenths shown of `a as f32 / b as f32 * 100.0`.
pub fn percent_tenths(a: u64, b: u64) -> (r: u64)
    requires
        a <= b,
        0 < b < 0x1_0000_0000,
    ensures
        r == pct_tenths(a as nat, b as nat),
{
    if a == 0 {
        return 0;
    }
    let (n, d) = single_percent(a, b);
    single_tenths(n, d)
}

/// Whole number shown of `a as f32 / b as f32 * 100.0`.
pub fn percent_whole(a: u64, b: u64) -> (r: u64)
    requires
        a <= b,
        0 < b < 0x1_0000_0000,
    ensures
        r == pct_whole(a as nat, b as nat),
{
    if a == 0 {
        return 0;
    }
    let (n, d) = single_percent(a, b);
    single_whole(n, d)
}

/// `(a as f32 / b as f32 * 100.0).round()`.
pub fn percent_rounded(a: u64, b: u64) -> (r: u64)
    requires
        a <= b,
        0 < b < 0x1_0000_0000,
    ensures
        r == pct_rounded(a as nat, b as nat),
{
    if a == 0 {
        return 0;
    }
    let (n, d) = single_percent(a, b);
    single_rounded(n, d)
}

/// Rounding `n / d` to a whole number keeps it at or above any whole `c`
/// that `n / d` reaches.
pub proof fn lemma_round_ge(n: int, d: int, c: int)
    requires
        d > 0,
        n >= c * d,
    ensures
        div_round_even(n, d) >= c,
{
    assert(n / d >= c) by (nonlinear_arith)
        requires
            d > 0,
            n >= c * d,
    ;
}

/// Rounding `n / d` to a whole number keeps it at or below any whole `c`
/// that `n / d` does not pass.
pub proof fn lemma_round_le(n: int, d: int, c: int)
    requires
        d > 0,
        0 <= n <= c * d,
    ensures
        div_round_even(n, d) <= c,
{
    let q = n / d;
    let r = n % d;
    assert(n == d * q + r && 0 <= r < d) by (nonlinear_arith)
        requires
            d > 0,
            q == n / d,
            r == n % d,
    ;
    assert(q <= c) by (nonlinear_arith)
        requires
            n == d * q + r,
            0 <= r,
            n <= c * d,
            d > 0,
    ;
    if q == c {
        assert(r == 0) by (nonlinear_arith)
            requires
                n == d * q + r,
                q == c,
                n <= c * d,
                0 <= r,
        ;
    }
}

/// `2^(i + j) = 2^i * 2^j`.
pub proof fn lemma_pow2n_add(i: nat, j: nat)
    ensures
        pow2n(i + j) == pow2n(i) * pow2n(j),
    decreases i,
{
    if i > 0 {
        lemma_pow2n_add((i - 1) as nat, j);
        assert(pow2n(i + j) == 2 * pow2n((i - 1 + j) as nat));
        assert(2 * (pow2n((i - 1) as nat) * pow2n(j)) == (2 * pow2n((i - 1) as nat)) * pow2n(j)) by (nonlinear_arith);
        assert(pow2n(i) == 2 * pow2n((i - 1) as nat));
    } else {
        assert(pow2n(0) == 1);
        assert(i + j == j);
    }
}

/// `2^k` is positive.
pub proof fn lemma_pow2n_pos(k: nat)
    ensures
        pow2n(k) >= 1,
{
    lemma_pow2n_mono(0, k);
}

/// A ratio that `a * 2^j` keeps below `2^23 * b` needs an exponent above `j`.
pub proof fn lemma_scale_above(a: nat, b: nat, j: nat)
    requires
        j < 149,
        a * pow2n(j) < pow2n(23) * b,
    ensures
        scale(a, b) > j,
{
    lemma_scale_from_above(a, b, 0, j);
}

proof fn lemma_scale_from_above(a: nat, b: nat, k: nat, j: nat)
    requires
        k <= j < 149,
        a * pow2n(j) < pow2n(23) * b,
    ensures
        scale_from(a, b, k) > j,
    decreases j - k,
{
    lemma_pow2n_mono(k, j);
    assert(a * pow2n(k) <= a * pow2n(j)) by (nonlinear_arith)
        requires
            pow2n(k) <= pow2n(j),
    ;
    if k < j {
        lemma_scale_from_above(a, b, k + 1, j);
    } else {
        lemma_scale_from_ge(a, b, k + 1);
    }
}

proof fn lemma_scale_from_ge(a: nat, b: nat, k: nat)
    ensures
        scale_from(a, b, k) >= k,
    decreases 150 - k,
{
    if k < 150 && a * pow2n(k) < pow2n(23) * b {
        lemma_scale_from_ge(a, b, k + 1);
    }
}

/// `a / b` at least the whole `c`, rounded to single precision and then half
/// away from zero, is at least `c`.
pub proof fn lemma_single_rounded_ge(a: nat, b: nat, c: nat)
    requires
        a > 0,
        b > 0,
        a >= c * b,
    ensures
        single_rounded_spec(a, b) >= c,
{
    let k = scale(a, b);
    let p = pow2n(k);
    lemma_pow2n_pos(k);
    assert(a * p >= (c * p) * b) by (nonlinear_arith)
        requires
            a >= c * b,
            p >= 1,
    ;
    lemma_round_ge((a * p) as int, b as int, (c * p) as int);
    let m = single_sig(a, b);
    assert((2 * m + p) / (2 * p) >= c) by (nonlinear_arith)
        requires
            m >= c * p,
            p >= 1,
    ;
}

/// `a / b` at most the whole `c`, rounded to single precision and then half
/// away from zero, is at most `c`.
pub proof fn lemma_single_rounded_le(a: nat, b: nat, c: nat)
    requires
        a > 0,
        b > 0,
        a <= c * b,
    ensures
        single_rounded_spec(a, b) <= c,
{
    let k = scale(a, b);
    let p = pow2n(k);
    lemma_pow2n_pos(k);
    assert(a * p <= (c * p) * b) by (nonlinear_arith)
        requires
            a <= c * b,
            p >= 1,
    ;
    lemma_round_le((a * p) as int, b as int, (c * p) as int);
    let m = single_sig(a, b);
    assert((2 * m + p) / (2 * p) <= c) by (nonlinear_arith)
        requires
            m <= c * p,
            p >= 1,
    ;
}

/// The scale found from `k` on is at most any `j >= k` that already meets
/// the bound.
pub proof fn lemma_scale_at_most(a: nat, b: nat, k: nat, j: nat)
    requires
        k <= j < 150,
        a * pow2n(j) >= pow2n(23) * b,
    ensures
        scale_from(a, b, k) <= j,
    decreases j - k,
{
    if k < j && a * pow2n(k) < pow2n(23) * b {
        lemma_scale_at_most(a, b, k + 1, j);
    }
}

/// `2^79` in full.
proof fn lemma_pow2n_79()
    ensures
        pow2n(79) == 0x8000_0000_0000_0000_0000,
{
    reveal_with_fuel(pow2n, 80);
}

pub proof fn lemma_pow2n_mono(i: nat, j: nat)
    requires
        i <= j,
    ensures
        pow2n(i) <= pow2n(j),
    decreases j,
{
    if i < j {
        lemma_pow2n_mono(i, (j - 1) as nat);
    }
}

} // verus!
