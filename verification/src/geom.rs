//! Fixed-point planar geometry: vectors, axis-aligned rectangles, the
//! arena bounds, and the shared rectangle-intersection primitive that
//! every hit test in the game is built from.
//!
//! Coordinates are integers in thousandths of a pixel ("mils"), so one
//! pixel is 1000 units.

use vstd::prelude::*;

verus! {

/// One pixel, in fixed-point coordinate units.
pub const MIL: i64 = 1000;

/// Width and height of the square arena, in coordinate units (800 pixels).
pub const ARENA_SIDE: i64 = 800_000;

/// Coordinates of live entities never leave this range; movement code
/// clamps to it so that every later addition provably fits in an `i64`.
pub const COORD_LIMIT: i64 = 10_000_000;

/// A two-dimensional fixed-point vector (position or velocity).
#[derive(Clone, Copy, Debug, PartialEq, Eq, Structural)]
pub struct Vec2i {
    pub x: i64,
    pub y: i64,
}

/// `v` scaled by the ratio `num / den`, truncating toward zero.
pub open spec fn scale_spec(v: int, num: int, den: int) -> int {
    if v >= 0 {
        (v * num) / den
    } else {
        -((-v * num) / den)
    }
}

/// `v` clamped to `[-limit, limit]`.
pub open spec fn clamp_spec(v: int, limit: int) -> int {
    if v < -limit {
        -limit
    } else if v > limit {
        limit
    } else {
        v
    }
}

impl Vec2i {
    pub fn new(x: i64, y: i64) -> (r: Vec2i)
        ensures
            r.x == x,
            r.y == y,
    {
        Vec2i { x, y }
    }

    /// Both coordinates within `[-limit, limit]`.
    pub open spec fn bounded(self, limit: int) -> bool {
        -limit <= self.x <= limit && -limit <= self.y <= limit
    }
}

/// `v * num / den`, truncating toward zero, computed on magnitudes so
/// that the rounding direction does not depend on the sign of `v`.
pub fn scale(v: i64, num: u32, den: u32) -> (r: i64)
    requires
        den > 0,
        -1_000_000_000_000 <= v <= 1_000_000_000_000,
        num <= 1_000_000,
    ensures
        r == scale_spec(v as int, num as int, den as int),
        -1_000_000_000_000_000_000 <= r <= 1_000_000_000_000_000_000,
        v >= 0 ==> r >= 0,
        v < 0 ==> r <= 0,
        num <= den ==> (if v >= 0 {
            r <= v
        } else {
            v <= r
        }),
{
    let a: u64 = if v >= 0 {
        v as u64
    } else {
        (-v) as u64
    };
    proof {
        assert(a * num <= 1_000_000_000_000u64 * 1_000_000u64) by (nonlinear_arith)
            requires
                a <= 1_000_000_000_000u64,
                num <= 1_000_000u64,
        ;
        if num <= den {
            assert(a * num <= a * den) by (nonlinear_arith)
                requires
                    num <= den,
            ;
            vstd::arithmetic::div_mod::lemma_div_is_ordered(
                (a * num) as int,
                (a * den) as int,
                den as int,
            );
            vstd::arithmetic::div_mod::lemma_div_multiples_vanish(a as int, den as int);
            assert((a * den) as int == (den as int) * (a as int)) by (nonlinear_arith);
        }
    }
    let m: u64 = a * (num as u64);
    let q: u64 = m / (den as u64);
    assert(q <= m);
    if v >= 0 {
        q as i64
    } else {
        -(q as i64)
    }
}

/// The product of two fixed-point values, in the same scale:
/// `a * b / 1000`, truncating toward zero.
pub open spec fn mul_mil_spec(a: int, b: int) -> int {
    let m = ((vstd::math::abs(a) * vstd::math::abs(b)) / 1000) as int;
    if (a >= 0) == (b >= 0) {
        m
    } else {
        -m
    }
}

/// Fixed-point multiplication, truncating toward zero.
pub fn mul_mil(a: i64, b: i64) -> (r: i64)
    requires
        -1_000_000_000 <= a <= 1_000_000_000,
        -1_000_000_000 <= b <= 1_000_000_000,
    ensures
        r == mul_mil_spec(a as int, b as int),
        -1_000_000_000_000_000 <= r <= 1_000_000_000_000_000,
        -1000 <= a <= 1000 ==> (if b >= 0 {
            -b <= r <= b
        } else {
            b <= r <= -b
        }),
{
    let ma: u64 = if a >= 0 {
        a as u64
    } else {
        (-a) as u64
    };
    let mb: u64 = if b >= 0 {
        b as u64
    } else {
        (-b) as u64
    };
    proof {
        assert(ma * mb <= 1_000_000_000u64 * 1_000_000_000u64) by (nonlinear_arith)
            requires
                ma <= 1_000_000_000u64,
                mb <= 1_000_000_000u64,
        ;
        if ma <= 1000 {
            assert(ma * mb <= 1000 * mb) by (nonlinear_arith)
                requires
                    ma <= 1000u64,
            ;
            vstd::arithmetic::div_mod::lemma_div_is_ordered(
                (ma * mb) as int,
                (1000 * mb) as int,
                1000,
            );
            vstd::arithmetic::div_mod::lemma_div_multiples_vanish(mb as int, 1000);
        }
    }
    let m: u64 = (ma * mb) / 1000;
    if (a >= 0) == (b >= 0) {
        m as i64
    } else {
        -(m as i64)
    }
}

/// `v` clamped to `[-limit, limit]`.
pub fn clamp(v: i64, limit: i64) -> (r: i64)
    requires
        limit >= 0,
    ensures
        r == clamp_spec(v as int, limit as int),
{
    if v < -limit {
        -limit
    } else if v > limit {
        limit
    } else {
        v
    }
}

/// An axis-aligned rectangle: top-left corner plus extent.
#[derive(Clone, Copy, Debug, PartialEq, Eq, Structural)]
pub struct Rect {
    pub x: i64,
    pub y: i64,
    pub width: i64,
    pub height: i64,
}

/// Whether two axis-aligned rectangles overlap on both axes.
pub open spec fn rects_intersect_spec(a: Rect, b: Rect) -> bool {
    &&& a.x < b.x + b.width
    &&& b.x < a.x + a.width
    &&& a.y < b.y + b.height
    &&& b.y < a.y + a.height
}

impl Rect {
    /// All fields small enough that corner sums cannot overflow.
    pub open spec fn wf(self) -> bool {
        &&& -0x1000_0000_0000 <= self.x <= 0x1000_0000_0000
        &&& -0x1000_0000_0000 <= self.y <= 0x1000_0000_0000
        &&& 0 <= self.width <= 0x1000_0000_0000
        &&& 0 <= self.height <= 0x1000_0000_0000
    }

    pub fn new(x: i64, y: i64, width: i64, height: i64) -> (r: Rect)
        ensures
            r == (Rect { x, y, width, height }),
    {
        Rect { x, y, width, height }
    }

    /// The sole collision primitive of the game: axis-aligned
    /// rectangle intersection (ranges overlap on both axes).
    pub fn intersects(&self, other: &Rect) -> (r: bool)
        requires
            self.wf(),
            other.wf(),
        ensures
            r == rects_intersect_spec(*self, *other),
    {
        self.x < other.x + other.width && other.x < self.x + self.width
            && self.y < other.y + other.height && other.y < self.y + self.height
    }
}

/// Whether a point lies inside the arena rectangle (edges included).
pub open spec fn bounds_contain_spec(width: int, height: int, pos: Vec2i) -> bool {
    0 <= pos.x <= width && 0 <= pos.y <= height
}

/// The rectangular playable area; positions are validated against it.
#[derive(Clone, Copy, Debug, PartialEq, Eq, Structural)]
pub struct Bounds {
    pub width: i64,
    pub height: i64,
}

impl Bounds {
    pub fn new(width: i64, height: i64) -> (r: Bounds)
        ensures
            r.width == width,
            r.height == height,
    {
        Bounds { width, height }
    }

    /// The arena the whole game is played in.
    pub fn arena() -> (r: Bounds)
        ensures
            r.width == ARENA_SIDE,
            r.height == ARENA_SIDE,
    {
        Bounds { width: ARENA_SIDE, height: ARENA_SIDE }
    }

    /// Point-in-rectangle membership test, edges included.
    pub fn contains(&self, pos: Vec2i) -> (r: bool)
        ensures
            r == bounds_contain_spec(self.width as int, self.height as int, pos),
    {
        pos.x <= self.width && pos.y <= self.height && pos.x >= 0 && pos.y >= 0
    }
}

} // verus!
