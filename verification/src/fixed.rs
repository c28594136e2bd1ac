//! Saturating fixed-point scalars.
//!
//! A scalar is an `i64` holding `FX_ONE` (= 2^16) per world unit.  Every
//! operation clamps its result into `[-FX_MAX, FX_MAX]`, so arithmetic never
//! overflows and never panics; a division by zero yields 0 and the square
//! root of a non-positive value yields 0, both by design (the renderer treats
//! degenerate geometry as "no contribution" rather than failing).

use vstd::prelude::*;

verus! {

/// Fixed-point representation of 1.0.
pub const FX_ONE: i64 = 65536;

/// Fixed-point representation of 2.0.
pub const FX_TWO: i64 = 131072;

/// Fixed-point representation of 4.0.
pub const FX_FOUR: i64 = 262144;

/// Fixed-point representation of 0.5.
pub const FX_HALF: i64 = 32768;

/// Largest magnitude a scalar may take (2^46); results saturate here.
pub const FX_MAX: i64 = 0x4000_0000_0000;

/// A scalar is well formed when it lies in the saturation range.
pub open spec fn fx_wf(a: int) -> bool {
    -FX_MAX <= a <= FX_MAX
}

/// Clamp a mathematical integer into the saturation range.
pub open spec fn fx_sat(a: int) -> int {
    if a > FX_MAX {
        FX_MAX as int
    } else if a < -FX_MAX {
        -FX_MAX as int
    } else {
        a
    }
}

/// Absolute value of a mathematical integer.
pub open spec fn s_abs(a: int) -> int {
    if a < 0 {
        -a
    } else {
        a
    }
}

/// Division truncating toward zero (the semantics of the executable code),
/// as opposed to the Euclidean `/` of spec arithmetic.
pub open spec fn s_tdiv(a: int, b: int) -> int
    recommends
        b != 0,
{
    if (a < 0) != (b < 0) {
        -(s_abs(a) / s_abs(b))
    } else {
        s_abs(a) / s_abs(b)
    }
}

/// Saturating fixed-point addition.
pub open spec fn s_fadd(a: int, b: int) -> int {
    fx_sat(a + b)
}

/// Saturating fixed-point subtraction.
pub open spec fn s_fsub(a: int, b: int) -> int {
    fx_sat(a - b)
}

/// Saturating fixed-point negation.
pub open spec fn s_fneg(a: int) -> int {
    fx_sat(-a)
}

/// Saturating fixed-point multiplication: the double-width product scaled
/// back down, truncating toward zero.
pub open spec fn s_fmul(a: int, b: int) -> int {
    fx_sat(s_tdiv(a * b, FX_ONE as int))
}

/// Saturating fixed-point division; a zero divisor yields 0.
pub open spec fn s_fdiv(a: int, b: int) -> int {
    if b == 0 {
        0
    } else {
        fx_sat(s_tdiv(a * FX_ONE, b))
    }
}

/// Integer square root: the largest `r` with `r * r <= n`.
pub open spec fn s_isqrt(n: nat) -> nat
    decreases n,
{
    if n == 0 {
        0
    } else {
        let p = s_isqrt((n - 1) as nat);
        if (p + 1) * (p + 1) <= n {
            p + 1
        } else {
            p
        }
    }
}

/// Fixed-point square root; non-positive inputs yield 0.
pub open spec fn s_fsqrt(a: int) -> int {
    if a <= 0 {
        0
    } else {
        s_isqrt((a * FX_ONE) as nat) as int
    }
}

/// Clamp a fixed-point scalar into [0, 1].
pub open spec fn s_clamp01(a: int) -> int {
    if a < 0 {
        0
    } else if a > FX_ONE {
        FX_ONE as int
    } else {
        a
    }
}

/// Fixed-point power with a natural exponent; `b^0 == 1`.
pub open spec fn s_fpow(b: int, e: nat) -> int
    decreases e,
{
    if e == 0 {
        FX_ONE as int
    } else {
        s_fmul(s_fpow(b, (e - 1) as nat), b)
    }
}

/// `s_isqrt` really brackets its argument between two consecutive squares.
pub proof fn lemma_isqrt_bounds(n: nat)
    ensures
        (s_isqrt(n) as int) * (s_isqrt(n) as int) <= n as int,
        (n as int) < ((s_isqrt(n) as int) + 1) * ((s_isqrt(n) as int) + 1),
    decreases n,
{
    if n == 0 {
        assert(s_isqrt(n) == 0);
        assert((s_isqrt(n) as int) * (s_isqrt(n) as int) <= n as int);
        assert((n as int) < ((s_isqrt(n) as int) + 1) * ((s_isqrt(n) as int) + 1));
    } else {
        lemma_isqrt_bounds((n - 1) as nat);
        let p = s_isqrt((n - 1) as nat);
        if (p + 1) * (p + 1) <= n {
            assert(s_isqrt(n) == p + 1);
            assert(n - 1 < (p + 1) * (p + 1));
            assert(n == (p + 1) * (p + 1));
            assert((p + 1) * (p + 1) < (p + 2) * (p + 2)) by (nonlinear_arith)
                requires
                    p >= 0,
            ;
            assert(n < (s_isqrt(n) + 1) * (s_isqrt(n) + 1));
            assert(s_isqrt(n) * s_isqrt(n) <= n);
        } else {
            assert(s_isqrt(n) == p);
            assert(p * p <= n - 1);
            assert(s_isqrt(n) * s_isqrt(n) <= n);
            assert(n < (s_isqrt(n) + 1) * (s_isqrt(n) + 1));
        }
    }
}

/// Any `r` bracketed between consecutive squares of itself is the integer
/// square root.
pub proof fn lemma_isqrt_unique(n: nat, r: nat)
    requires
        (r as int) * (r as int) <= n as int,
        (n as int) < ((r as int) + 1) * ((r as int) + 1),
    ensures
        r == s_isqrt(n),
{
    lemma_isqrt_bounds(n);
    let s = s_isqrt(n);
    if r < s {
        assert((r + 1) * (r + 1) <= s * s) by (nonlinear_arith)
            requires
                0 <= r,
                r + 1 <= s,
        ;
    }
    if s < r {
        assert((s + 1) * (s + 1) <= r * r) by (nonlinear_arith)
            requires
                0 <= s,
                s + 1 <= r,
        ;
    }
}

/// Clamp an integer to an inclusive range, low bound winning below it and
/// high bound above it.
pub fn clamp(x: i64, min: i64, max: i64) -> (r: i64)
    ensures
        r == (if x < min {
            min
        } else if x > max {
            max
        } else {
            x
        }),
{
    if x < min {
        min
    } else if x > max {
        max
    } else {
        x
    }
}

/// Clamp a double-width intermediate into the scalar range.
fn sat_i128(v: i128) -> (r: i64)
    ensures
        r as int == fx_sat(v as int),
{
    if v > FX_MAX as i128 {
        FX_MAX
    } else if v < -FX_MAX as i128 {
        -FX_MAX
    } else {
        v as i64
    }
}

/// Magnitude of a scalar, widened so `i64::MIN` cannot overflow.
fn abs_i64(a: i64) -> (r: u128)
    ensures
        r as int == s_abs(a as int),
{
    let w: i128 = a as i128;
    if w < 0 {
        (-w) as u128
    } else {
        w as u128
    }
}

/// Apply a sign to a magnitude and clamp into the scalar range.
fn sat_signed(neg: bool, mag: u128) -> (r: i64)
    ensures
        r as int == (if neg {
            fx_sat(-(mag as int))
        } else {
            fx_sat(mag as int)
        }),
{
    if mag > FX_MAX as u128 {
        if neg {
            -FX_MAX
        } else {
            FX_MAX
        }
    } else {
        if neg {
            -(mag as i64)
        } else {
            mag as i64
        }
    }
}

/// Saturating fixed-point addition.
pub fn fx_add(a: i64, b: i64) -> (r: i64)
    ensures
        r == s_fadd(a as int, b as int),
        fx_wf(r as int),
{
    sat_i128(a as i128 + b as i128)
}

/// Saturating fixed-point subtraction.
pub fn fx_sub(a: i64, b: i64) -> (r: i64)
    ensures
        r == s_fsub(a as int, b as int),
        fx_wf(r as int),
{
    sat_i128(a as i128 - b as i128)
}

/// Saturating fixed-point negation.
pub fn fx_neg(a: i64) -> (r: i64)
    ensures
        r == s_fneg(a as int),
        fx_wf(r as int),
{
    sat_i128(-(a as i128))
}

/// Saturating fixed-point multiplication.
pub fn fx_mul(a: i64, b: i64) -> (r: i64)
    ensures
        r == s_fmul(a as int, b as int),
        fx_wf(r as int),
{
    let neg: bool = (a < 0) != (b < 0);
    let ua: u128 = abs_i64(a);
    let ub: u128 = abs_i64(b);
    proof {
        assert((ua as int) * (ub as int) <= 0x8000000000000000 * 0x8000000000000000)
            by (nonlinear_arith)
            requires
                0 <= ua as int <= 0x8000000000000000,
                0 <= ub as int <= 0x8000000000000000,
        ;
    }
    let q: u128 = (ua * ub) / (FX_ONE as u128);
    proof {
        let ai = a as int;
        let bi = b as int;
        assert(s_abs(ai * bi) == s_abs(ai) * s_abs(bi) && ((ai * bi < 0) ==> neg) && ((ai * bi > 0)
            ==> !neg)) by (nonlinear_arith)
            requires
                neg == ((ai < 0) != (bi < 0)),
                s_abs(ai) == (if ai < 0 {
                    -ai
                } else {
                    ai
                }),
                s_abs(ai * bi) == (if ai * bi < 0 {
                    -(ai * bi)
                } else {
                    ai * bi
                }),
                s_abs(bi) == (if bi < 0 {
                    -bi
                } else {
                    bi
                }),
        ;
        assert(q == s_abs(ai * bi) / (FX_ONE as int));
        if ai * bi == 0 {
            assert(s_tdiv(ai * bi, FX_ONE as int) == 0);
            assert(q == 0);
        } else if ai * bi < 0 {
            assert(s_tdiv(ai * bi, FX_ONE as int) == -(q as int));
        } else {
            assert(s_tdiv(ai * bi, FX_ONE as int) == q);
        }
    }
    sat_signed(neg, q)
}

/// Saturating fixed-point division; a zero divisor yields 0.
pub fn fx_div(a: i64, b: i64) -> (r: i64)
    ensures
        r == s_fdiv(a as int, b as int),
        fx_wf(r as int),
{
    if b == 0 {
        return 0;
    }
    let neg: bool = (a < 0) != (b < 0);
    let ua: u128 = abs_i64(a);
    let ub: u128 = abs_i64(b);
    proof {
        assert((ua as int) * (FX_ONE as int) <= 0x8000000000000000 * 0x10000)
            by (nonlinear_arith)
            requires
                0 <= ua as int <= 0x8000000000000000,
                (FX_ONE as int) == 0x10000,
        ;
    }
    let q: u128 = (ua * (FX_ONE as u128)) / ub;
    proof {
        let ai = a as int;
        let bi = b as int;
        let num = ai * (FX_ONE as int);
        assert(s_abs(num) == s_abs(ai) * (FX_ONE as int) && ((num < 0) ==> ai < 0) && ((num > 0)
            ==> ai > 0)) by (nonlinear_arith)
            requires
                s_abs(ai) == (if ai < 0 {
                    -ai
                } else {
                    ai
                }),
                s_abs(num) == (if num < 0 {
                    -num
                } else {
                    num
                }),
                num == ai * (FX_ONE as int),
        ;
        assert(q == s_abs(num) / s_abs(bi));
        if num == 0 {
            assert(s_tdiv(num, bi) == 0);
            assert(q == 0);
        } else if (num < 0) != (bi < 0) {
            assert(s_tdiv(num, bi) == -(q as int));
        } else {
            assert(s_tdiv(num, bi) == q);
        }
    }
    sat_signed(neg, q)
}

/// Integer square root of a double-width value below 2^80.
fn isqrt_u128(n: u128) -> (r: u128)
    requires
        n < 0x100000000000000000000,
    ensures
        r as nat == s_isqrt(n as nat),
{
    let mut lo: u128 = 0;
    let mut hi: u128 = 0x10000000000;
    while lo + 1 < hi
        invariant
            lo < hi,
            hi <= 0x10000000000,
            (lo as int) * (lo as int) <= n as int,
            (n as int) < (hi as int) * (hi as int),
        decreases hi - lo,
    {
        let mid: u128 = lo + (hi - lo) / 2;
        assert(lo < mid < hi);
        proof {
            assert((mid as int) * (mid as int) <= 0x10000000000 * 0x10000000000)
                by (nonlinear_arith)
                requires
                    0 <= mid as int <= 0x10000000000,
            ;
        }
        if mid * mid <= n {
            lo = mid;
        } else {
            hi = mid;
        }
    }
    proof {
        lemma_isqrt_unique(n as nat, lo as nat);
    }
    lo
}

/// Fixed-point square root; non-positive inputs yield 0.
pub fn fx_sqrt(a: i64) -> (r: i64)
    ensures
        r == s_fsqrt(a as int),
        fx_wf(r as int),
{
    if a <= 0 {
        0
    } else {
        proof {
            assert((a as int) * (FX_ONE as int) < 0x100000000000000000000) by (nonlinear_arith)
                requires
                    0 <= (a as int) && (a as int) < 0x8000000000000000,
                    (FX_ONE as int) == 0x10000,
            ;
        }
        let n: u128 = (a as u128) * (FX_ONE as u128);
        let r: u128 = isqrt_u128(n);
        proof {
            lemma_isqrt_bounds(n as nat);
            assert((r as int) < 0x10000000000) by (nonlinear_arith)
                requires
                    (r as int) * (r as int) <= n as int,
                    (n as int) < 0x100000000000000000000,
                    r as int >= 0,
            ;
        }
        r as i64
    }
}

/// Convert a whole number of world units to a fixed-point scalar.
pub fn fx_from_int(n: i64) -> (r: i64)
    ensures
        r as int == fx_sat(n * FX_ONE),
        fx_wf(r as int),
{
    sat_i128((n as i128) * (FX_ONE as i128))
}

/// Clamp a fixed-point scalar into [0, 1].
pub fn fx_clamp01(a: i64) -> (r: i64)
    ensures
        r == s_clamp01(a as int),
        fx_wf(r as int),
{
    clamp(a, 0, FX_ONE)
}

/// Fixed-point power with a natural exponent; `b^0 == 1`.
pub fn fx_pow(b: i64, e: u32) -> (r: i64)
    ensures
        r == s_fpow(b as int, e as nat),
{
    let mut acc: i64 = FX_ONE;
    let mut i: u32 = 0;
    while i < e
        invariant
            i <= e,
            acc == s_fpow(b as int, i as nat),
        decreases e - i,
    {
        acc = fx_mul(acc, b);
        i = i + 1;
    }
    acc
}

} // verus!
