//! Fixed-point primitives of the codec: saturating clip, sign extension,
//! rounded right shifts and the power-of-two-step interval search.
//!
//! Every exec function here carries an exact arithmetic contract, stated
//! over `int` with Euclidean `/` and `%`, so the rest of the codec can be
//! specified purely arithmetically.

use vstd::arithmetic::div_mod::{lemma_fundamental_div_mod, lemma_mod_bound};
use vstd::arithmetic::power2::{lemma2_to64, lemma_pow2_adds, lemma_pow2_strictly_increases, pow2};
use vstd::bits::{lemma_u64_pow2_no_overflow, lemma_u64_shl_is_mul};
use vstd::prelude::*;

verus! {

/// Saturation of `v` to the signed range of `p + 1` bits:
/// `[-2^p, 2^p - 1]`.
pub open spec fn clip_intp2_spec(v: int, p: nat) -> int {
    let lim = pow2(p) as int;
    if v < -lim {
        -lim
    } else if v > lim - 1 {
        lim - 1
    } else {
        v
    }
}

/// The low `bits` bits of `v` read as a two's-complement signed value.
pub open spec fn sign_extend_spec(v: int, bits: nat) -> int {
    let m = v % (pow2(bits) as int);
    if m >= pow2((bits - 1) as nat) as int {
        m - pow2(bits) as int
    } else {
        m
    }
}

/// Arithmetic right shift by `s` with round-half-up, corrected down by one
/// when the discarded part is exactly the half point.
pub open spec fn rshift_round_spec(v: int, s: nat) -> int {
    let half = pow2((s - 1) as nat) as int;
    (v + half) / (pow2(s) as int) - (if v % (pow2((s + 1) as nat) as int) == half {
        1int
    } else {
        0int
    })
}

/// Truncation of an integer to 32 bits, read back as signed.
pub open spec fn trunc_i32_spec(v: int) -> int {
    let m = v % 0x1_0000_0000;
    if m >= 0x8000_0000 {
        m - 0x1_0000_0000
    } else {
        m
    }
}

/// Quotient against a positive divisor keeps the sign of the dividend and
/// never grows in magnitude.
pub proof fn lemma_div_bounds(x: int, d: int)
    requires
        d >= 1,
    ensures
        x >= 0 ==> 0 <= x / d <= x,
        x < 0 ==> x <= x / d <= 0,
{
    lemma_fundamental_div_mod(x, d);
    let q = x / d;
    let m = x % d;
    if x >= 0 {
        assert(0 <= q <= x) by (nonlinear_arith)
            requires
                x == d * q + m,
                0 <= m < d,
                d >= 1,
                x >= 0,
        ;
    } else {
        assert(x <= q <= 0) by (nonlinear_arith)
            requires
                x == d * q + m,
                0 <= m < d,
                d >= 1,
                x < 0,
        ;
    }
}

/// The rounding shift of a value bounded by `b` stays within `b` scaled
/// down by the full shift, up to rounding slack.
pub proof fn lemma_rshift_round_in_range(v: int, s: nat, b: int)
    requires
        1 <= s,
        0 <= b,
        -b <= v <= b,
    ensures
        -b / 2 - 3 <= rshift_round_spec(v, s) <= b / 2 + 2,
        -(b / (pow2(s) as int)) - 3 <= rshift_round_spec(v, s) <= b / (pow2(s) as int) + 2,
{
    let h = pow2((s - 1) as nat) as int;
    let d = pow2(s) as int;
    vstd::arithmetic::power2::lemma_pow2_pos((s - 1) as nat);
    lemma_pow2_adds((s - 1) as nat, 1);
    lemma2_to64();
    assert(d == 2 * h);
    lemma_fundamental_div_mod(v + h, d);
    lemma_mod_bound(v + h, d);
    lemma_fundamental_div_mod(b, d);
    lemma_mod_bound(b, d);
    lemma_fundamental_div_mod(b, 2);
    lemma_mod_bound(b, 2);
    let q = (v + h) / d;
    let m = (v + h) % d;
    let bd = b / d;
    let mbd = b % d;
    let b2 = b / 2;
    let mb2 = b % 2;
    assert(-bd - 2 <= q <= bd + 2 && -b2 - 2 <= q <= b2 + 2) by (nonlinear_arith)
        requires
            v + h == d * q + m,
            0 <= m < d,
            b == d * bd + mbd,
            0 <= mbd < d,
            b == 2 * b2 + mb2,
            0 <= mb2 < 2,
            d == 2 * h,
            h >= 1,
            -b <= v <= b,
            0 <= b,
    ;
}

/// `2^p` as an executable value.
pub fn pow2_exec(p: u32) -> (r: i64)
    requires
        p <= 62,
    ensures
        r == pow2(p as nat),
        1 <= r <= 0x4000_0000_0000_0000,
{
    proof {
        lemma_u64_pow2_no_overflow(p as nat);
        lemma_u64_shl_is_mul(1u64, p as u64);
        lemma2_to64();
        vstd::arithmetic::power2::lemma2_to64_rest();
        if (p as nat) < 62 {
            lemma_pow2_strictly_increases(p as nat, 62);
        }
    }
    (1u64 << p) as i64
}

/// Euclidean division of `x` by `d > 0` (quotient rounded toward minus
/// infinity).
pub fn div_floor_i64(x: i64, d: i64) -> (r: i64)
    requires
        d >= 1,
    ensures
        r == x as int / d as int,
{
    proof {
        lemma_div_bounds(x as int, d as int);
    }
    match x.checked_div_euclid(d) {
        Some(q) => q,
        None => 0,
    }
}

/// Euclidean remainder of `x` by `d > 0`; always in `[0, d)`.
pub fn rem_floor_i64(x: i64, d: i64) -> (r: i64)
    requires
        d >= 1,
    ensures
        r == x as int % d as int,
        0 <= r < d,
{
    proof {
        lemma_mod_bound(x as int, d as int);
    }
    match x.checked_rem_euclid(d) {
        Some(m) => m,
        None => 0,
    }
}

/// Product of two 32-bit values, exact in 64 bits.
pub fn mul_i32(a: i32, b: i32) -> (r: i64)
    ensures
        r == a as int * b as int,
{
    proof {
        assert(-0x4000_0000_0000_0000 <= a as int * b as int <= 0x4000_0000_0000_0000)
            by (nonlinear_arith)
            requires
                -0x8000_0000 <= a as int <= 0x7FFF_FFFF,
                -0x8000_0000 <= b as int <= 0x7FFF_FFFF,
        ;
    }
    (a as i64) * (b as i64)
}

/// Product of a 25-bit-bounded value with any 32-bit value, exact in 64
/// bits and bounded well away from overflow so that sums of such products
/// can accumulate.
pub fn mul_i32_bounded24(a: i32, b: i32) -> (r: i64)
    requires
        -0x100_0000 <= a <= 0x100_0000,
    ensures
        r == a as int * b as int,
        -0x80_0000_0000_0000 <= r <= 0x80_0000_0000_0000,
{
    proof {
        assert(-0x80_0000_0000_0000 <= a as int * b as int <= 0x80_0000_0000_0000)
            by (nonlinear_arith)
            requires
                -0x100_0000 <= a as int <= 0x100_0000,
                -0x8000_0000 <= b as int <= 0x7FFF_FFFF,
        ;
    }
    (a as i64) * (b as i64)
}

/// Product of two 64-bit values, exact in 128 bits.
pub fn mul_i64_wide(a: i64, b: i64) -> (r: i128)
    ensures
        r == a as int * b as int,
        -0x4000_0000_0000_0000_0000_0000_0000_0000 <= r <= 0x4000_0000_0000_0000_0000_0000_0000_0000,
{
    proof {
        assert(-0x4000_0000_0000_0000_0000_0000_0000_0000 <= a as int * b as int
            <= 0x4000_0000_0000_0000_0000_0000_0000_0000) by (nonlinear_arith)
            requires
                -0x8000_0000_0000_0000 <= a as int <= 0x7FFF_FFFF_FFFF_FFFF,
                -0x8000_0000_0000_0000 <= b as int <= 0x7FFF_FFFF_FFFF_FFFF,
        ;
    }
    (a as i128) * (b as i128)
}

/// Saturates `a` to the signed range of `p + 1` bits, `[-2^p, 2^p - 1]`.
/// A value already in range comes back unchanged.
pub fn clip_intp2(a: i32, p: u32) -> (r: i32)
    requires
        p <= 30,
    ensures
        r == clip_intp2_spec(a as int, p as nat),
        -0x4000_0000 <= r <= 0x3FFF_FFFF,
        -(pow2(p as nat) as int) <= r <= pow2(p as nat) - 1,
{
    let lim: i64 = pow2_exec(p);
    proof {
        if (p as nat) < 31 {
            lemma_pow2_strictly_increases(p as nat, 31);
        }
        lemma2_to64();
    }
    if (a as i64) < -lim {
        (-lim) as i32
    } else if (a as i64) > lim - 1 {
        (lim - 1) as i32
    } else {
        a
    }
}

/// Saturation of a 64-bit value to the same `p + 1`-bit signed range.
pub fn clip_intp2_i64(a: i64, p: u32) -> (r: i32)
    requires
        p <= 30,
    ensures
        r == clip_intp2_spec(a as int, p as nat),
        -0x4000_0000 <= r <= 0x3FFF_FFFF,
        -(pow2(p as nat) as int) <= r <= pow2(p as nat) - 1,
{
    let lim: i64 = pow2_exec(p);
    proof {
        if (p as nat) < 31 {
            lemma_pow2_strictly_increases(p as nat, 31);
        }
        lemma2_to64();
    }
    if a < -lim {
        (-lim) as i32
    } else if a > lim - 1 {
        (lim - 1) as i32
    } else {
        a as i32
    }
}

/// Reads the low `bits` bits of `val` as a signed quantity, extended to the
/// full width.
pub fn sign_extend(val: i32, bits: u32) -> (r: i32)
    requires
        1 <= bits <= 31,
    ensures
        r == sign_extend_spec(val as int, bits as nat),
{
    let md: i64 = pow2_exec(bits);
    let half: i64 = pow2_exec(bits - 1);
    proof {
        lemma_pow2_adds((bits - 1) as nat, 1);
        lemma2_to64();
        if (bits as nat) < 32 {
            lemma_pow2_strictly_increases(bits as nat, 32);
        }
    }
    let m: i64 = rem_floor_i64(val as i64, md);
    if m >= half {
        (m - md) as i32
    } else {
        m as i32
    }
}

/// Arithmetic right shift of a 64-bit value by `shift` with round-half-up
/// and the exact-half correction.
pub fn rshift64(value: i64, shift: u32) -> (r: i64)
    requires
        1 <= shift <= 61,
    ensures
        r == rshift_round_spec(value as int, shift as nat),
        -0x4000_0000_0000_0003 <= r <= 0x4000_0000_0000_0002,
{
    let half: i64 = pow2_exec(shift - 1);
    let d: i64 = pow2_exec(shift);
    let dd: i64 = pow2_exec(shift + 1);
    proof {
        lemma_pow2_adds((shift - 1) as nat, 1);
        lemma_pow2_adds(shift as nat, 1);
        lemma2_to64();
        lemma_rshift_round_in_range(value as int, shift as nat, 0x8000_0000_0000_0000);
    }
    let q128: i128 = match (value as i128 + half as i128).checked_div_euclid(d as i128) {
        Some(q) => q,
        None => 0,
    };
    proof {
        lemma_fundamental_div_mod(value as int + half, d as int);
        lemma_mod_bound(value as int + half, d as int);
        let v = value as int;
        let h = half as int;
        let dI = d as int;
        let q = (v + h) / dI;
        let m = (v + h) % dI;
        assert(-0x4000_0000_0000_0001 <= q <= 0x4000_0000_0000_0001) by (nonlinear_arith)
            requires
                v + h == dI * q + m,
                0 <= m < dI,
                dI == 2 * h,
                h >= 1,
                -0x8000_0000_0000_0000 <= v <= 0x7FFF_FFFF_FFFF_FFFF,
        ;
    }
    let q: i64 = q128 as i64;
    let m: i64 = rem_floor_i64(value, dd);
    if m == half {
        q - 1
    } else {
        q
    }
}

/// Arithmetic right shift of a 32-bit value by `shift` with round-half-up
/// and the exact-half correction.
pub fn rshift32(value: i32, shift: u32) -> (r: i32)
    requires
        1 <= shift <= 31,
    ensures
        r == rshift_round_spec(value as int, shift as nat),
        -0x4000_0003 <= r <= 0x4000_0002,
{
    proof {
        lemma_rshift_round_in_range(value as int, shift as nat, 0x8000_0000);
    }
    let r64: i64 = rshift64(value as i64, shift);
    r64 as i32
}

/// `rshift64` over a 128-bit accumulator (for products that exceed 64
/// bits before shifting).
pub fn rshift_round_i128(value: i128, shift: u32) -> (r: i128)
    requires
        1 <= shift <= 61,
        -0x1_0000_0000_0000_0000_0000_0000 <= value <= 0x1_0000_0000_0000_0000_0000_0000,
    ensures
        r == rshift_round_spec(value as int, shift as nat),
        -0x1_0000_0000_0000_0000_0000_0000 <= r <= 0x1_0000_0000_0000_0000_0000_0000,
{
    let half: i64 = pow2_exec(shift - 1);
    let d: i64 = pow2_exec(shift);
    let dd: i64 = pow2_exec(shift + 1);
    proof {
        lemma_pow2_adds((shift - 1) as nat, 1);
        lemma_pow2_adds(shift as nat, 1);
        lemma2_to64();
        lemma_div_bounds(value as int + half as int, d as int);
        lemma_mod_bound(value as int, dd as int);
        lemma_rshift_round_in_range(value as int, shift as nat,
            0x1_0000_0000_0000_0000_0000_0000);
    }
    let q: i128 = match (value + half as i128).checked_div_euclid(d as i128) {
        Some(q) => q,
        None => 0,
    };
    let m: i128 = match value.checked_rem_euclid(dd as i128) {
        Some(m) => m,
        None => 0,
    };
    if m == half as i128 {
        q - 1
    } else {
        q
    }
}

/// `rshift_round_i128`, truncated to 32 bits, then saturated to the
/// 24-bit signed range.
pub fn rshift128_clip24(value: i128, shift: u32) -> (r: i32)
    requires
        1 <= shift <= 61,
        -0x1_0000_0000_0000_0000_0000_0000 <= value <= 0x1_0000_0000_0000_0000_0000_0000,
    ensures
        r == clip_intp2_spec(trunc_i32_spec(rshift_round_spec(value as int, shift as nat)), 23),
        -0x80_0000 <= r <= 0x7F_FFFF,
{
    let rr: i128 = rshift_round_i128(value, shift);
    proof {
        lemma_mod_bound(rr as int, 0x1_0000_0000);
        lemma2_to64();
    }
    let m: i128 = match rr.checked_rem_euclid(0x1_0000_0000) {
        Some(m) => m,
        None => 0,
    };
    let m64: i64 = m as i64;
    let t: i32 = if m64 >= 0x8000_0000 {
        (m64 - 0x1_0000_0000) as i32
    } else {
        m64 as i32
    };
    clip_intp2(t, 23)
}

/// `rshift32` followed by saturation to the 24-bit signed range.
pub fn rshift32_clip24(value: i32, shift: u32) -> (r: i32)
    requires
        1 <= shift <= 31,
    ensures
        r == clip_intp2_spec(rshift_round_spec(value as int, shift as nat), 23),
        -0x80_0000 <= r <= 0x7F_FFFF,
{
    proof {
        lemma2_to64();
    }
    clip_intp2(rshift32(value, shift), 23)
}

/// Truncation of a 64-bit value to its low 32 bits, read back as signed.
pub fn trunc_i32(v: i64) -> (r: i32)
    ensures
        r == trunc_i32_spec(v as int),
{
    let m: i64 = rem_floor_i64(v, 0x1_0000_0000);
    if m >= 0x8000_0000 {
        (m - 0x1_0000_0000) as i32
    } else {
        m as i32
    }
}

/// `rshift64`, truncated to 32 bits, then saturated to the 24-bit signed
/// range.
pub fn rshift64_clip24(value: i64, shift: u32) -> (r: i32)
    requires
        1 <= shift <= 61,
    ensures
        r == clip_intp2_spec(trunc_i32_spec(rshift_round_spec(value as int, shift as nat)), 23),
        -0x80_0000 <= r <= 0x7F_FFFF,
{
    proof {
        lemma2_to64();
    }
    clip_intp2(trunc_i32(rshift64(value, shift)), 23)
}

/// One halving step sequence of the interval search: from state
/// `(idx, step)`, take `idx + step` whenever the scaled interval bound at
/// that index does not exceed `value * 2^24`, then halve the step.
pub open spec fn bin_search_spec(value: int, factor: int, iv: Seq<i32>, idx: int, step: int) -> int
    decreases step,
{
    if step <= 0 {
        idx
    } else {
        let next = if factor * iv[idx + step] <= value * 0x100_0000 {
            idx + step
        } else {
            idx
        };
        bin_search_spec(value, factor, iv, next, step / 2)
    }
}

/// Power-of-two-step search over a table of interval thresholds: starting
/// from index 0 with step `len / 2`, accumulates every step whose
/// threshold, scaled by `factor`, stays at or below `value * 2^24`. For a
/// table sorted in increasing order and a nonnegative factor this yields
/// the largest reachable index whose threshold passes, and 0 when none
/// does.
pub fn aptx_bin_search(value: i32, factor: i32, intervals: &[i32]) -> (r: i32)
    requires
        1 <= intervals@.len() <= 0x10000,
    ensures
        r == bin_search_spec(value as int, factor as int, intervals@, 0,
            intervals@.len() as int / 2),
        0 <= r < intervals@.len(),
        intervals@.len() >= 2 ==> r <= 2 * (intervals@.len() as int / 2) - 1,
        intervals@.len() == 1 ==> r == 0,
{
    let mut idx: usize = 0;
    let mut i: usize = intervals.len() / 2;
    let ghost iv = intervals@;
    let ghost len = intervals@.len() as int;
    let ghost target = bin_search_spec(value as int, factor as int, iv, 0, len / 2);

    while i > 0
        invariant
            0 <= idx,
            idx + 2 * i <= 2 * (len / 2),
            iv == intervals@,
            len == iv.len(),
            1 <= len <= 0x10000,
            idx < len,
            len >= 2 ==> idx <= 2 * (len / 2) - 1,
            len == 1 ==> idx == 0,
            target == bin_search_spec(value as int, factor as int, iv, idx as int, i as int),
        decreases i,
    {
        let ghost idx0 = idx as int;
        let ghost i0 = i as int;
        let scaled: i64 = mul_i32(factor, intervals[idx + i]);
        if scaled <= (value as i64) * 0x100_0000 {
            idx += i;
        }
        i = i / 2;
        proof {
            assert(bin_search_spec(value as int, factor as int, iv, idx0, i0)
                == bin_search_spec(value as int, factor as int, iv, idx as int, i as int));
        }
    }
    idx as i32
}

} // verus!
