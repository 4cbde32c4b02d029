//! Integer pixel arithmetic for the layout engine.
//!
//! All geometry runs on `i64` pixel coordinates.  Sums are saturated into
//! the band `[-PX_LIMIT, PX_LIMIT]`, which is far beyond any real screen,
//! so arithmetic never overflows and the exact (unsaturated) laws hold for
//! every layout a program can actually build.

use vstd::prelude::*;

verus! {

/// Largest coordinate magnitude the engine works with.
pub const PX_LIMIT: i64 = 0x4000_0000_0000;

/// `v` pulled into the band `[-PX_LIMIT, PX_LIMIT]`.
pub open spec fn clamp_px(v: int) -> int {
    if v > PX_LIMIT {
        PX_LIMIT as int
    } else if v < -PX_LIMIT {
        -PX_LIMIT as int
    } else {
        v
    }
}

/// Whether `v` lies in the coordinate band.
pub open spec fn in_px(v: int) -> bool {
    -PX_LIMIT <= v <= PX_LIMIT
}

/// Saturating coordinate sum: exact whenever the true sum is in the band.
pub fn px_add(a: i64, b: i64) -> (r: i64)
    ensures
        r == clamp_px(a + b),
{
    match a.checked_add(b) {
        Some(v) => {
            if v > PX_LIMIT {
                PX_LIMIT
            } else if v < -PX_LIMIT {
                -PX_LIMIT
            } else {
                v
            }
        },
        None => {
            if b >= 0 {
                PX_LIMIT
            } else {
                -PX_LIMIT
            }
        },
    }
}

/// Saturating coordinate difference: exact whenever the true difference is
/// in the band.
pub fn px_sub(a: i64, b: i64) -> (r: i64)
    ensures
        r == clamp_px(a - b),
{
    match a.checked_sub(b) {
        Some(v) => {
            if v > PX_LIMIT {
                PX_LIMIT
            } else if v < -PX_LIMIT {
                -PX_LIMIT
            } else {
                v
            }
        },
        None => {
            if b <= 0 {
                PX_LIMIT
            } else {
                -PX_LIMIT
            }
        },
    }
}

/// Saturating coordinate product: exact whenever the true product is in the
/// band.
pub fn px_mul(a: i64, b: i64) -> (r: i64)
    ensures
        r == clamp_px(a * b),
{
    match a.checked_mul(b) {
        Some(v) => {
            if v > PX_LIMIT {
                PX_LIMIT
            } else if v < -PX_LIMIT {
                -PX_LIMIT
            } else {
                v
            }
        },
        None => {
            proof {
                lemma_mul_sign(a as int, b as int);
            }
            if (a >= 0) == (b >= 0) {
                PX_LIMIT
            } else {
                -PX_LIMIT
            }
        },
    }
}

proof fn lemma_mul_sign(a: int, b: int)
    ensures
        a >= 0 && b >= 0 ==> a * b >= 0,
        a <= 0 && b <= 0 ==> a * b >= 0,
        a >= 0 && b <= 0 ==> a * b <= 0,
        a <= 0 && b >= 0 ==> a * b <= 0,
{
    assert(a >= 0 && b >= 0 ==> a * b >= 0) by (nonlinear_arith);
    assert(a <= 0 && b <= 0 ==> a * b >= 0) by (nonlinear_arith);
    assert(a >= 0 && b <= 0 ==> a * b <= 0) by (nonlinear_arith);
    assert(a <= 0 && b >= 0 ==> a * b <= 0) by (nonlinear_arith);
}

/// The larger of two coordinates.
pub fn px_max_of(a: i64, b: i64) -> (r: i64)
    ensures
        r == if b > a {
            b as int
        } else {
            a as int
        },
{
    if b > a {
        b
    } else {
        a
    }
}

/// The absolute value of `x`.
pub fn abs(x: i32) -> (r: i32)
    requires
        x != i32::MIN,
    ensures
        r == if x < 0 {
            -x as int
        } else {
            x as int
        },
{
    if x < 0 {
        -x
    } else {
        x
    }
}

/// Saturating conversion between numeric types: out-of-range values land on
/// the nearest representable bound.
pub trait SaturateCast<T>: Sized {
    /// Converts `n`, clamping it into the target type's range.
    fn saturate_from(n: T) -> Self;
}

impl SaturateCast<i64> for i32 {
    fn saturate_from(n: i64) -> (r: i32)
        ensures
            r == if n > i32::MAX {
                i32::MAX as int
            } else if n < i32::MIN {
                i32::MIN as int
            } else {
                n as int
            },
    {
        if n > i32::MAX as i64 {
            i32::MAX
        } else if n < i32::MIN as i64 {
            i32::MIN
        } else {
            n as i32
        }
    }
}

/// Two-component integer vector, the unit of all geometry in the engine.
#[derive(Clone, Copy, Debug, PartialEq, Eq, Structural)]
pub struct Vec2 {
    pub x: i64,
    pub y: i64,
}

/// Shorthand constructor for `Vec2`.
pub fn vec2(x: i64, y: i64) -> (r: Vec2)
    ensures
        r.x == x,
        r.y == y,
{
    Vec2 { x, y }
}

impl Vec2 {
    /// The origin.
    pub fn zero() -> (r: Vec2)
        ensures
            r.x == 0,
            r.y == 0,
    {
        Vec2 { x: 0, y: 0 }
    }

    /// Component-wise saturating sum.
    pub fn plus(self, o: Vec2) -> (r: Vec2)
        ensures
            r.x == clamp_px(self.x + o.x),
            r.y == clamp_px(self.y + o.y),
    {
        Vec2 { x: px_add(self.x, o.x), y: px_add(self.y, o.y) }
    }

    /// Component-wise saturating difference.
    pub fn minus(self, o: Vec2) -> (r: Vec2)
        ensures
            r.x == clamp_px(self.x - o.x),
            r.y == clamp_px(self.y - o.y),
    {
        Vec2 { x: px_sub(self.x, o.x), y: px_sub(self.y, o.y) }
    }

    /// The squared euclidean length, saturated into the coordinate band.
    pub fn length_squared(self) -> (r: i64)
        ensures
            r == clamp_px(clamp_px(self.x * self.x) + clamp_px(self.y * self.y)),
    {
        px_add(px_mul(self.x, self.x), px_mul(self.y, self.y))
    }
}

} // verus!
