//! Fixed-point trigonometry on whole degrees.
//!
//! Headings are integer degrees and unit magnitudes are in thousandths
//! (so a unit vector component lies in `[-1000, 1000]`).  Sine and
//! cosine use a rational approximation of the half-wave, exact at every
//! multiple of 45 degrees; the arctangent uses an octant reduction with
//! a cubic approximation.  All of it is plain integer arithmetic.

use vstd::prelude::*;
use vstd::arithmetic::div_mod::{
    lemma_div_is_ordered, lemma_div_multiples_vanish, lemma_mod_add_multiples_vanish,
    lemma_mod_sub_multiples_vanish, lemma_small_mod,
};

verus! {

/// Magnitude of a unit vector component, in thousandths.
pub const TRIG_ONE: i64 = 1000;

/// Unit-component magnitude of a 45-degree heading, in thousandths.
pub const TRIG_DIAG: i64 = 707;

/// Half-wave sine approximation in thousandths, for `0 <= d <= 180`.
pub open spec fn half_wave_spec(d: int) -> int {
    let p = d * (180 - d);
    (4 * p * 1000) / (40500 - p)
}

/// Sine in thousandths of a normalized degree `0 <= d < 360`: the
/// half-wave approximation mirrored onto the second half, with the
/// diagonal headings pinned to their exact rounded value.
pub open spec fn sin_norm_spec(d: int) -> int {
    if d == 45 || d == 135 {
        TRIG_DIAG as int
    } else if d == 225 || d == 315 {
        -(TRIG_DIAG as int)
    } else if d <= 180 {
        half_wave_spec(d)
    } else {
        -half_wave_spec(d - 180)
    }
}

/// Sine in thousandths of any whole-degree heading.
pub open spec fn sin_mil_spec(deg: int) -> int {
    sin_norm_spec(deg % 360)
}

/// Cosine in thousandths of any whole-degree heading.
pub open spec fn cos_mil_spec(deg: int) -> int {
    sin_mil_spec(deg + 90)
}

/// A heading reduced to `[0, 360)`.
pub fn norm_deg(deg: i64) -> (r: u64)
    ensures
        r == deg as int % 360,
        r < 360,
{
    let mut d: i64 = deg;
    while d < 0
        invariant
            d % 360 == deg as int % 360,
            d <= i64::MAX - 360 || d == deg,
        decreases (if d < 0 { -d } else { 0int }),
    {
        proof {
            lemma_mod_add_multiples_vanish(d as int, 360);
        }
        d = d + 360;
    }
    while d >= 360
        invariant
            d >= 0,
            d % 360 == deg as int % 360,
        decreases d,
    {
        proof {
            lemma_mod_sub_multiples_vanish(d - 360, 360);
        }
        d = d - 360;
    }
    proof {
        lemma_small_mod(d as nat, 360nat);
    }
    d as u64
}

/// The half-wave sine approximation on `[0, 180]`.
fn half_wave(d: u64) -> (r: u64)
    requires
        d <= 180,
    ensures
        r == half_wave_spec(d as int),
        r <= 1000,
{
    proof {
        assert(d * (180 - d) <= 8100) by (nonlinear_arith)
            requires
                d <= 180,
        ;
    }
    let p: u64 = d * (180 - d);
    let num: u64 = 4 * p * 1000;
    let den: u64 = 40500 - p;
    let q: u64 = num / den;
    proof {
        assert(num <= 1000 * den);
        lemma_div_is_ordered(num as int, 1000 * den, den as int);
        lemma_div_multiples_vanish(1000, den as int);
    }
    q
}

/// Sine of a whole-degree heading, in thousandths.
pub fn sin_mil(deg: i64) -> (r: i64)
    ensures
        r == sin_mil_spec(deg as int),
        -1000 <= r <= 1000,
{
    let d: u64 = norm_deg(deg);
    if d == 45 || d == 135 {
        TRIG_DIAG
    } else if d == 225 || d == 315 {
        -TRIG_DIAG
    } else if d <= 180 {
        half_wave(d) as i64
    } else {
        -(half_wave(d - 180) as i64)
    }
}

/// Cosine of a whole-degree heading, in thousandths.
pub fn cos_mil(deg: i64) -> (r: i64)
    requires
        deg <= i64::MAX - 90,
    ensures
        r == cos_mil_spec(deg as int),
        -1000 <= r <= 1000,
{
    sin_mil(deg + 90)
}

/// Cubic arctangent approximation on one octant: for a slope of
/// `r` thousandths (`0 <= r <= 1000`), the angle in whole degrees,
/// clamped to `[0, 45]`.
pub open spec fn atan_octant_spec(r: int) -> int {
    let s = r * (1000 - r);
    let u = 14000 + (3830 * r) / 1000;
    let milli = 45 * r + (s * u) / 1000000;
    if milli / 1000 > 45 {
        45
    } else {
        milli / 1000
    }
}

/// Arctangent of a slope given in thousandths, in whole degrees.
fn atan_octant(r: u64) -> (a: u64)
    requires
        r <= 1000,
    ensures
        a == atan_octant_spec(r as int),
        a <= 45,
{
    proof {
        assert(r * (1000 - r) <= 250000) by (nonlinear_arith)
            requires
                r <= 1000,
        ;
    }
    let s: u64 = r * (1000 - r);
    let u: u64 = 14000 + (3830 * r) / 1000;
    proof {
        assert((3830 * r) / 1000 <= 3830) by (nonlinear_arith)
            requires
                r <= 1000,
        ;
        assert(s * u <= 250000 * 17830) by (nonlinear_arith)
            requires
                s <= 250000 && u <= 17830,
        ;
    }
    let milli: u64 = 45 * r + (s * u) / 1000000;
    let deg: u64 = milli / 1000;
    if deg > 45 {
        45
    } else {
        deg
    }
}

/// Arctangent of `dy / dx` in whole degrees, in `[-180, 180]`, with
/// the quadrant chosen from the signs of both arguments as the
/// floating-point `atan2` does.
pub open spec fn atan2_deg_spec(dy: int, dx: int) -> int {
    if dx == 0 && dy == 0 {
        0
    } else {
        let ax = if dx >= 0 {
            dx
        } else {
            -dx
        };
        let ay = if dy >= 0 {
            dy
        } else {
            -dy
        };
        let base = if ax >= ay {
            atan_octant_spec(ay * 1000 / ax)
        } else {
            90 - atan_octant_spec(ax * 1000 / ay)
        };
        if dx >= 0 && dy >= 0 {
            base
        } else if dx < 0 && dy >= 0 {
            180 - base
        } else if dx < 0 {
            -(180 - base)
        } else {
            -base
        }
    }
}

/// Arctangent with quadrant correction, on fixed-point coordinates.
pub fn atan2_deg(dy: i64, dx: i64) -> (r: i64)
    requires
        -1_000_000_000_000 <= dy <= 1_000_000_000_000,
        -1_000_000_000_000 <= dx <= 1_000_000_000_000,
    ensures
        r == atan2_deg_spec(dy as int, dx as int),
        -180 <= r <= 180,
{
    if dx == 0 && dy == 0 {
        return 0;
    }
    let ax: u64 = if dx >= 0 {
        dx as u64
    } else {
        (-dx) as u64
    };
    let ay: u64 = if dy >= 0 {
        dy as u64
    } else {
        (-dy) as u64
    };
    let base: u64 = if ax >= ay {
        proof {
            assert(ay * 1000 <= ax * 1000);
            lemma_div_is_ordered((ay * 1000) as int, (ax * 1000) as int, ax as int);
            lemma_div_multiples_vanish(1000, ax as int);
        }
        atan_octant(ay * 1000 / ax)
    } else {
        proof {
            assert(ax * 1000 <= ay * 1000);
            lemma_div_is_ordered((ax * 1000) as int, (ay * 1000) as int, ay as int);
            lemma_div_multiples_vanish(1000, ay as int);
        }
        90 - atan_octant(ax * 1000 / ay)
    };
    if dx >= 0 && dy >= 0 {
        base as i64
    } else if dx < 0 && dy >= 0 {
        180 - base as i64
    } else if dx < 0 {
        -(180 - base as i64)
    } else {
        -(base as i64)
    }
}

} // verus!
