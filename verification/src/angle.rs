//! Angles in milliradians: a fixed-point arctangent for deriving a heading
//! angle from a direction vector, and wrapping into one turn.

use vstd::prelude::*;
use vstd::math::abs;
use crate::math::div_down;

verus! {

/// A half turn, in milliradians.
pub const PI_MRAD: i64 = 3142;

/// A quarter turn, in milliradians.
pub const HALF_PI_MRAD: i64 = 1571;

/// An eighth of a turn, in milliradians.
pub const QUARTER_PI_MRAD: i64 = 785;

/// A full turn, in milliradians.
pub const TWO_PI_MRAD: i64 = 6284;

/// The angle of the point `(x, y)` from the positive `x` axis, in
/// milliradians within `[-PI_MRAD, PI_MRAD]`. Within each octant the arc is
/// approximated by the chord: `atan(y / x)` is taken as `QUARTER_PI_MRAD * y / x`
/// for `0 <= y <= x`, and the other octants follow by symmetry. The origin is
/// mapped to zero.
pub open spec fn atan2_spec(y: int, x: int) -> int {
    let ay = abs(y) as int;
    let ax = abs(x) as int;
    if ay == 0 && ax == 0 {
        0
    } else {
        let m = if ay <= ax {
            div_down(QUARTER_PI_MRAD * ay, ax)
        } else {
            HALF_PI_MRAD - div_down(QUARTER_PI_MRAD * ax, ay)
        };
        let u = if x >= 0 {
            m
        } else {
            PI_MRAD - m
        };
        if y >= 0 {
            u
        } else {
            -u
        }
    }
}

/// The quotient `(QUARTER_PI_MRAD * a) / b` for `0 <= a <= b` stays within an
/// eighth of a turn.
proof fn lemma_octant_quotient(a: int, b: int)
    requires
        0 <= a <= b,
        b >= 1,
    ensures
        0 <= div_down(QUARTER_PI_MRAD * a, b) <= QUARTER_PI_MRAD,
{
    assert(0 <= (QUARTER_PI_MRAD * a) / b <= QUARTER_PI_MRAD) by (nonlinear_arith)
        requires
            0 <= a <= b,
            b >= 1,
    ;
}

/// The arctangent stays within half a turn either way.
pub proof fn lemma_atan2_spec_range(y: int, x: int)
    ensures
        -PI_MRAD <= atan2_spec(y, x) <= PI_MRAD,
{
    let ay = abs(y) as int;
    let ax = abs(x) as int;
    if ay == 0 && ax == 0 {
    } else if ay <= ax {
        lemma_octant_quotient(ay, ax);
    } else {
        lemma_octant_quotient(ax, ay);
    }
}

/// The magnitude of one axis, as an unsigned value.
pub fn abs_mag(a: i64) -> (r: u64)
    requires
        a > i64::MIN,
    ensures
        r == abs(a as int),
{
    if a >= 0 {
        a as u64
    } else {
        (-a) as u64
    }
}

/// The angle of the point `(x, y)` from the positive `x` axis, matching
/// `atan2_spec` exactly.
pub fn atan2_mrad(y: i64, x: i64) -> (r: i64)
    requires
        -1_000_000 <= y <= 1_000_000,
        -1_000_000 <= x <= 1_000_000,
    ensures
        r == atan2_spec(y as int, x as int),
        -PI_MRAD <= r <= PI_MRAD,
{
    let ay: u64 = abs_mag(y);
    let ax: u64 = abs_mag(x);
    if ay == 0 && ax == 0 {
        return 0;
    }
    let m: u64 = if ay <= ax {
        proof {
            lemma_octant_quotient(ay as int, ax as int);
        }
        ((QUARTER_PI_MRAD as u64) * ay) / ax
    } else {
        proof {
            lemma_octant_quotient(ax as int, ay as int);
        }
        (HALF_PI_MRAD as u64) - ((QUARTER_PI_MRAD as u64) * ax) / ay
    };
    let u: i64 = if x >= 0 {
        m as i64
    } else {
        PI_MRAD - (m as i64)
    };
    if y >= 0 {
        u
    } else {
        -u
    }
}

/// Wrapping an angle that is off by at most one turn back into
/// `[-PI_MRAD, PI_MRAD]`.
pub open spec fn wrap_mrad_spec(a: int) -> int {
    if a > PI_MRAD {
        a - TWO_PI_MRAD
    } else if a < -PI_MRAD {
        a + TWO_PI_MRAD
    } else {
        a
    }
}

/// Wraps an angle into `[-PI_MRAD, PI_MRAD]`, matching `wrap_mrad_spec`.
pub fn wrap_mrad(a: i64) -> (r: i64)
    requires
        -TWO_PI_MRAD <= a <= TWO_PI_MRAD,
    ensures
        r == wrap_mrad_spec(a as int),
        -PI_MRAD <= r <= PI_MRAD,
{
    if a > PI_MRAD {
        a - TWO_PI_MRAD
    } else if a < -PI_MRAD {
        a + TWO_PI_MRAD
    } else {
        a
    }
}

} // verus!
