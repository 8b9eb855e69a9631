//! Fixed-point building blocks: division that truncates toward zero and an
//! integer square root, each with an exact mathematical mirror.

use vstd::prelude::*;
use vstd::math::abs;

verus! {

/// Division by a positive divisor, truncating toward zero (the rounding Rust's
/// `/` uses), written over Euclidean division of non-negative operands.
pub open spec fn div_down(a: int, d: int) -> int
    recommends
        d > 0,
{
    if a >= 0 {
        a / d
    } else {
        -((-a) / d)
    }
}

/// `div_down` never grows a value: if `abs(a) <= b * d` then the quotient's
/// magnitude is at most `b`.
pub proof fn lemma_div_down_abs_le(a: int, d: int, b: int)
    requires
        d >= 1,
        b >= 0,
        abs(a) <= b * d,
    ensures
        abs(div_down(a, d)) <= b,
{
    if a >= 0 {
        assert(a / d >= 0 && a / d <= b) by (nonlinear_arith)
            requires
                d >= 1,
                b >= 0,
                0 <= a <= b * d,
        ;
    } else {
        assert((-a) / d >= 0 && (-a) / d <= b) by (nonlinear_arith)
            requires
                d >= 1,
                b >= 0,
                0 <= -a <= b * d,
        ;
    }
}

/// Truncating division of `a` by the positive divisor `d`, matching
/// `div_down` exactly.
pub fn div_trunc(a: i64, d: u64) -> (r: i64)
    requires
        d > 0,
        a > i64::MIN,
        d <= i64::MAX as u64,
    ensures
        r == div_down(a as int, d as int),
{
    if a >= 0 {
        let q: u64 = (a as u64) / d;
        proof {
            assert(a as int / d as int <= a as int) by (nonlinear_arith)
                requires
                    a >= 0,
                    d >= 1,
            ;
        }
        q as i64
    } else {
        let m: u64 = (-a) as u64;
        let q: u64 = m / d;
        proof {
            assert(m as int / d as int <= m as int) by (nonlinear_arith)
                requires
                    m >= 0,
                    d >= 1,
            ;
        }
        -(q as i64)
    }
}

/// The floor of the square root of `n`.
pub open spec fn isqrt_spec(n: nat) -> nat
    decreases n,
{
    if n == 0 {
        0
    } else {
        let r = isqrt_spec((n - 1) as nat);
        if (r + 1) * (r + 1) <= n {
            r + 1
        } else {
            r
        }
    }
}

/// `isqrt_spec(n)` is the unique integer whose square is at most `n` and whose
/// successor's square exceeds `n`.
pub proof fn lemma_isqrt_spec_bounds(n: nat)
    ensures
        isqrt_spec(n) * isqrt_spec(n) <= n,
        n < (isqrt_spec(n) + 1) * (isqrt_spec(n) + 1),
    decreases n,
{
    if n == 0 {
        let s = isqrt_spec(n);
        assert(s == 0);
        assert(n < (s + 1) * (s + 1)) by (nonlinear_arith)
            requires
                n == 0,
                s == 0,
        ;
    } else {
        lemma_isqrt_spec_bounds((n - 1) as nat);
        let r = isqrt_spec((n - 1) as nat);
        assert(isqrt_spec(n) == if (r + 1) * (r + 1) <= n {
            (r + 1) as nat
        } else {
            r
        });
        if (r + 1) * (r + 1) <= n {
            assert(n == (r + 1) * (r + 1));
            assert((r + 1) * (r + 1) < (r + 2) * (r + 2)) by (nonlinear_arith);
        }
    }
}

/// Any integer that satisfies the square-root bounds is `isqrt_spec(n)`.
pub proof fn lemma_isqrt_unique(n: nat, r: nat)
    requires
        r * r <= n,
        n < (r + 1) * (r + 1),
    ensures
        r == isqrt_spec(n),
{
    lemma_isqrt_spec_bounds(n);
    let s = isqrt_spec(n);
    assert(r == s) by (nonlinear_arith)
        requires
            r * r <= n,
            n < (r + 1) * (r + 1),
            s * s <= n,
            n < (s + 1) * (s + 1),
    ;
}

/// A square at most `n` bounds its root by `isqrt_spec(n)`.
pub proof fn lemma_abs_le_isqrt(c: int, n: nat)
    requires
        c * c <= n,
    ensures
        abs(c) <= isqrt_spec(n),
{
    lemma_isqrt_spec_bounds(n);
    let s = isqrt_spec(n);
    assert(abs(c) <= s) by (nonlinear_arith)
        requires
            c * c <= n,
            n < (s + 1) * (s + 1),
            s >= 0,
    ;
}

/// The floor of the square root of `n`, matching `isqrt_spec` exactly.
pub fn isqrt(n: u64) -> (r: u64)
    requires
        n <= 0xFFFF_FFFF,
    ensures
        r == isqrt_spec(n as nat),
{
    let mut r: u64 = 0;
    while (r + 1) * (r + 1) <= n
        invariant
            n <= 0xFFFF_FFFF,
            r * r <= n,
            r <= 0xFFFF,
            r <= n,
            (r + 1) * (r + 1) <= 0x1_0000_0000,
        decreases n - r,
    {
        r = r + 1;
        proof {
            assert(r <= 0xFFFF && r <= n) by (nonlinear_arith)
                requires
                    r >= 1,
                    r * r <= n,
                    n <= 0xFFFF_FFFF,
            ;
            assert((r + 1) * (r + 1) <= 0x1_0000_0000) by (nonlinear_arith)
                requires
                    r <= 0xFFFF,
            ;
        }
    }
    proof {
        lemma_isqrt_unique(n as nat, r as nat);
    }
    r
}

/// The ceiling of the square root of `n`: the floor root, plus one unless the
/// floor is exact.
pub open spec fn isqrt_up_spec(n: nat) -> nat {
    if isqrt_spec(n) * isqrt_spec(n) == n {
        isqrt_spec(n)
    } else {
        isqrt_spec(n) + 1
    }
}

/// The ceiling root's square covers `n`; it sits on or one above the floor
/// root, and is zero exactly on zero.
pub proof fn lemma_isqrt_up_bounds(n: nat)
    ensures
        n <= isqrt_up_spec(n) * isqrt_up_spec(n),
        isqrt_spec(n) <= isqrt_up_spec(n) <= isqrt_spec(n) + 1,
        isqrt_up_spec(n) == 0 <==> n == 0,
{
    lemma_isqrt_spec_bounds(n);
    if n == 0 {
        assert(isqrt_spec(n) == 0);
    }
}

/// The ceiling of the square root of `n`, matching `isqrt_up_spec` exactly.
pub fn isqrt_up(n: u64) -> (r: u64)
    requires
        n <= 0xFFFF_FFFF,
    ensures
        r == isqrt_up_spec(n as nat),
{
    let m = isqrt(n);
    proof {
        lemma_isqrt_spec_bounds(n as nat);
        assert(m <= 0xFFFF) by (nonlinear_arith)
            requires
                m * m <= n,
                n <= 0xFFFF_FFFF,
        ;
    }
    if m * m == n {
        m
    } else {
        m + 1
    }
}

} // verus!
