use vstd::prelude::*;

use crate::quantity::{Angle, Length, magnitude, trunc_div, div_wide, wide_product};
use crate::vector2d::Vector2D;

verus! {

/// The number of parts that make one whole in a `Direction`'s sine and cosine.
pub const RATIO_ONE: i64 = 1_000_000_000;

/// The sine and cosine of an angle, each as a whole number of parts of
/// `RATIO_ONE`.
///
/// The trigonometric functions themselves are computed outside the library;
/// a direction is what they hand in.
#[derive(Clone, Copy, Debug, PartialEq, Eq, Structural)]
pub struct Direction {
    pub sine: i64,
    pub cosine: i64,
}

impl Direction {
    /// Both ratios lie between minus one and one.
    pub open spec fn wf(self) -> bool {
        &&& -RATIO_ONE <= self.sine <= RATIO_ONE
        &&& -RATIO_ONE <= self.cosine <= RATIO_ONE
    }
}

/// A point given by its angle and its distance from an origin.
#[derive(Clone, Copy, Debug, PartialEq, Eq, Structural)]
pub struct AngularPosition {
    pub angle: Angle,
    pub radius: Length,
}

/// The coordinate that a radius gives along an axis whose ratio is `ratio`,
/// rounded toward zero.
pub open spec fn along(radius: int, ratio: int) -> int {
    trunc_div(radius * ratio, RATIO_ONE as int)
}

/// The Cartesian point at `radius` in `direction`; an angle of zero points
/// along `+y`, and the angle grows toward `+x`.
pub open spec fn polar_to_planar(radius: int, direction: Direction) -> (int, int) {
    (along(radius, direction.sine as int), along(radius, direction.cosine as int))
}

/// Whether `r` is the square root of `n` rounded down.
pub open spec fn is_floor_sqrt(r: int, n: int) -> bool {
    0 <= r && r * r <= n < (r + 1) * (r + 1)
}

/// The length along a ratio's axis of a non-negative radius.
fn along_axis(radius: i64, ratio: i64) -> (r: i64)
    requires
        radius >= 0,
        -RATIO_ONE <= ratio <= RATIO_ONE,
    ensures
        r as int == along(radius as int, ratio as int),
        -radius <= r <= radius,
{
    let p = wide_product(radius, ratio);
    proof {
        let ri = radius as int;
        let qi = ratio as int;
        assert(magnitude(ri * qi) <= ri * RATIO_ONE) by (nonlinear_arith)
            requires
                ri >= 0,
                -RATIO_ONE <= qi <= RATIO_ONE,
                magnitude(ri * qi) == if ri * qi >= 0 {
                    ri * qi
                } else {
                    -(ri * qi)
                },
        ;
        vstd::arithmetic::div_mod::lemma_div_is_ordered(
            magnitude(ri * qi),
            ri * RATIO_ONE,
            RATIO_ONE as int,
        );
        vstd::arithmetic::div_mod::lemma_div_multiples_vanish(ri, RATIO_ONE as int);
        assert(ri * RATIO_ONE == RATIO_ONE * ri) by (nonlinear_arith);
    }
    let q = div_wide(p, RATIO_ONE as i128);
    q as i64
}

/// The square root of `n` rounded down.
fn floor_sqrt(n: u128) -> (r: u64)
    requires
        n < 0x4000_0000_0000_0000_0000_0000_0000_0000,
    ensures
        is_floor_sqrt(r as int, n as int),
        r < 0x8000_0000_0000_0000,
{
    let mut lo: u128 = 0;
    let mut hi: u128 = 0x8000_0000_0000_0000;
    assert(hi * hi == 0x4000_0000_0000_0000_0000_0000_0000_0000);
    while lo + 1 < hi
        invariant
            lo < hi <= 0x8000_0000_0000_0000,
            lo * lo <= n,
            n < hi * hi,
        decreases hi - lo,
    {
        let mid: u128 = lo + (hi - lo) / 2;
        assert(mid * mid <= 0x4000_0000_0000_0000_0000_0000_0000_0000) by (nonlinear_arith)
            requires
                mid <= 0x8000_0000_0000_0000,
        ;
        if mid * mid <= n {
            lo = mid;
        } else {
            hi = mid;
        }
    }
    assert(lo + 1 == hi);
    lo as u64
}

impl AngularPosition {
    pub fn new(angle: Angle, radius: Length) -> (r: AngularPosition)
        ensures
            r.angle == angle,
            r.radius == radius,
    {
        AngularPosition { angle, radius }
    }

    /// The Cartesian point of this position: `(radius * sin, radius * cos)`,
    /// where `direction` holds the sine and cosine of `self.angle`.
    pub fn get_position(&self, direction: Direction) -> (r: Vector2D<Length>)
        requires
            self.radius.0 >= 0,
            direction.wf(),
        ensures
            r@ == polar_to_planar(self.radius.0 as int, direction),
            -self.radius.0 <= r.x.0 <= self.radius.0,
            -self.radius.0 <= r.y.0 <= self.radius.0,
    {
        Vector2D {
            x: Length(along_axis(self.radius.0, direction.sine)),
            y: Length(along_axis(self.radius.0, direction.cosine)),
        }
    }
}

impl Vector2D<Length> {
    /// The polar form of this point: its distance from the origin, rounded
    /// down, with `angle`, the polar angle of the point as `atan2(y, x)`
    /// gives it.
    ///
    /// `atan2(y, x)` measures from `+x`, while `get_position` measures from
    /// `+y`: the two give a point back only on the diagonal `x == y`.
    pub fn angular_position(&self, angle: Angle) -> (r: AngularPosition)
        requires
            self.x.0 * self.x.0 + self.y.0 * self.y.0 < 0x4000_0000_0000_0000_0000_0000_0000_0000,
        ensures
            r.angle == angle,
            is_floor_sqrt(r.radius.0 as int, self.x.0 * self.x.0 + self.y.0 * self.y.0),
    {
        let xx = wide_product(self.x.0, self.x.0);
        let yy = wide_product(self.y.0, self.y.0);
        proof {
            let xi = self.x.0 as int;
            let yi = self.y.0 as int;
            assert(xi * xi >= 0 && yi * yi >= 0) by (nonlinear_arith);
        }
        let radius = floor_sqrt((xx + yy) as u128);
        AngularPosition { angle, radius: Length(radius as i64) }
    }
}

} // verus!
