//! The cone sampler: where in a truncated cone a debris particle starts,
//! and how fast it leaves, such that the particles fill the cone evenly by
//! volume.
//!
//! A sample is given in the cone's own cylinder coordinates: a height along
//! the axis, measured from the top, a distance from the axis, and an
//! azimuth as a fraction of a full turn. With the azimuth as the angle
//! `theta`, the particle starts at `(radius * cos(theta), height,
//! radius * sin(theta))` and leaves along `(cos(theta), 0, sin(theta))`,
//! straight away from the axis towards the cone's side.
use vstd::prelude::*;
use crate::roots::{
    cbrt_floor,
    is_cbrt_floor,
    is_sqrt_floor,
    lemma_cbrt_floor_below,
    lemma_sqrt_floor_below,
    sqrt_ratio_floor,
};

verus! {

/// The denominator of a height or radius fraction: a fraction `f` stands
/// for `f / 65536`.
pub const FRACTION_ONE: u64 = 65_536;

/// The denominator of a speed draw: a draw `u` stands for `u / 2^32`.
pub const DRAW_ONE: u64 = 0x1_0000_0000;

/// The value at `t / one` of the way from `a` to `b`, rounded down.
pub open spec fn lerp(a: int, b: int, t: int, one: int) -> int {
    (a * (one - t) + b * t) / one
}

/// The speed at which particles leave, in thousandths of a world unit per
/// second.
#[derive(Clone, Copy, Debug, PartialEq, Eq, Structural)]
pub enum Value {
    /// Every particle leaves at this speed.
    Single(u32),
    /// Each particle leaves at a speed drawn evenly between these two.
    Uniform(u32, u32),
}

impl Value {
    /// The speed that the draw `u` stands for.
    pub open spec fn drawn(self, u: int) -> int {
        match self {
            Value::Single(s) => s as int,
            Value::Uniform(a, b) => lerp(a as int, b as int, u, DRAW_ONE as int),
        }
    }
}

/// A truncated cone from which particles are emitted, with lengths in
/// thousandths of a world unit.
#[derive(Clone, Copy, Debug, PartialEq, Eq, Structural)]
pub struct MyPositionCone3dModifier {
    /// The cone height along its axis, between the base and top radii.
    pub height: u32,
    /// The cone radius at its base, perpendicularly to its axis.
    pub base_radius: u32,
    /// The cone radius at its truncated top, perpendicularly to its axis.
    /// This can be set to zero to get a non-truncated cone.
    pub top_radius: u32,
    /// The speed of the particles on spawn.
    pub speed: Value,
}

/// Where a particle starts and how fast it leaves.
#[derive(Clone, Copy, Debug, PartialEq, Eq, Structural)]
pub struct ConeSample {
    /// How far down the axis the particle starts, as a fraction of the
    /// cone's height.
    pub height_fraction: u32,
    /// How far from the axis the particle starts, as a fraction of the
    /// cone's radius at its height.
    pub radius_fraction: u32,
    /// The particle's height along the axis, measured from the top.
    pub height: u32,
    /// The radius of the cone at the particle's height.
    pub boundary_radius: u32,
    /// The particle's distance from the axis.
    pub radius: u32,
    /// The particle's azimuth round the axis, in `1 / 2^32` of a full turn.
    pub turn: u32,
    /// The speed at which the particle leaves, straight away from the
    /// axis. A particle on the axis of a cone that has no width at its
    /// height has no such direction, and stays.
    pub speed: u32,
}

impl MyPositionCone3dModifier {
    /// `out` is the sample that the four draws stand for.
    ///
    /// The height fraction is the cube root of the height draw, of which
    /// the upper 48 bits count, and the radius fraction is the square root
    /// of the radius draw: a cone's cross-section grows with the square of
    /// the height and a disc's area with the square of the radius, and the
    /// roots make up for both. The cone's radius at the particle's height
    /// lies as far between the top and the base radius as the height
    /// fraction says.
    pub open spec fn samples(
        self,
        height_draw: u64,
        radius_draw: u32,
        azimuth_draw: u32,
        speed_draw: u32,
        out: ConeSample,
    ) -> bool {
        &&& is_cbrt_floor(out.height_fraction as int, height_draw as int / FRACTION_ONE as int)
        &&& is_sqrt_floor(out.radius_fraction as int, radius_draw as int, 1)
        &&& out.height == self.height * out.height_fraction / FRACTION_ONE as int
        &&& out.boundary_radius == lerp(
            self.top_radius as int,
            self.base_radius as int,
            out.height_fraction as int,
            FRACTION_ONE as int,
        )
        &&& out.radius == out.boundary_radius * out.radius_fraction / FRACTION_ONE as int
        &&& out.turn == azimuth_draw
        &&& out.speed == if out.boundary_radius == 0 {
            0
        } else {
            self.speed.drawn(speed_draw as int)
        }
    }

    /// The cone of the debris that a projectile throws up: 100 world units
    /// high, with a pointed top and a base of radius 50, its particles
    /// leaving at 100 to 500 world units per second.
    pub fn debris() -> (cone: MyPositionCone3dModifier)
        ensures
            cone == (MyPositionCone3dModifier {
                height: 100_000,
                base_radius: 50_000,
                top_radius: 0,
                speed: Value::Uniform(100_000, 500_000),
            }),
    {
        MyPositionCone3dModifier {
            height: 100_000,
            base_radius: 50_000,
            top_radius: 0,
            speed: Value::Uniform(100_000, 500_000),
        }
    }

    /// The sample that four uniform random words stand for. Each particle
    /// takes four words of its own; nothing is kept from one sample to the
    /// next.
    pub fn sample(&self, height_draw: u64, radius_draw: u32, azimuth_draw: u32, speed_draw: u32) -> (out:
        ConeSample)
        ensures
            self.samples(height_draw, radius_draw, azimuth_draw, speed_draw, out),
            out.height_fraction < FRACTION_ONE,
            out.radius_fraction < FRACTION_ONE,
            out.height <= self.height,
            out.radius <= out.boundary_radius,
            self.top_radius <= out.boundary_radius <= self.base_radius || self.base_radius
                <= out.boundary_radius <= self.top_radius,
    {
        let alpha_h: u64 = cbrt_floor(height_draw / 65_536);
        let alpha_r: u64 = sqrt_ratio_floor(radius_draw as u128, 1, 65_535);
        proof {
            lemma_cbrt_floor_below(alpha_h as int, height_draw as int / 65_536, 65_536);
            assert(self.height * alpha_h <= self.height * 65_536) by (nonlinear_arith)
                requires
                    alpha_h <= 65_536,
            ;
        }
        let height: u64 = self.height as u64 * alpha_h / 65_536;
        let boundary_radius: u64 = blend(self.top_radius, self.base_radius, alpha_h, 65_536);
        proof {
            assert(boundary_radius * alpha_r <= boundary_radius * 65_536) by (nonlinear_arith)
                requires
                    alpha_r <= 65_536,
            ;
        }
        let radius: u64 = boundary_radius * alpha_r / 65_536;
        let speed: u64 = if boundary_radius == 0 {
            0
        } else {
            match self.speed {
                Value::Single(s) => s as u64,
                Value::Uniform(a, b) => blend(a, b, speed_draw as u64, 0x1_0000_0000),
            }
        };
        ConeSample {
            height_fraction: alpha_h as u32,
            radius_fraction: alpha_r as u32,
            height: height as u32,
            boundary_radius: boundary_radius as u32,
            radius: radius as u32,
            turn: azimuth_draw,
            speed: speed as u32,
        }
    }
}

/// The value at `t / one` of the way from `a` to `b`, rounded down. It
/// lies between the two.
fn blend(a: u32, b: u32, t: u64, one: u64) -> (v: u64)
    requires
        t <= one,
        0 < one <= 0x1_0000_0000,
    ensures
        v == lerp(a as int, b as int, t as int, one as int),
        a <= v <= b || b <= v <= a,
{
    let rest: u128 = (one - t) as u128;
    proof {
        let lo: int = if a <= b { a as int } else { b as int };
        let hi: int = if a <= b { b as int } else { a as int };
        assert(lo * one <= a * (one - t) + b * t <= hi * one) by (nonlinear_arith)
            requires
                lo <= a <= hi,
                lo <= b <= hi,
                0 <= t <= one,
        ;
        assert(0 <= a * (one - t) <= 0x1_0000_0000 * 0x1_0000_0000) by (nonlinear_arith)
            requires
                0 <= a <= 0x1_0000_0000,
                0 <= one - t <= 0x1_0000_0000,
        ;
        assert(0 <= b * t <= 0x1_0000_0000 * 0x1_0000_0000) by (nonlinear_arith)
            requires
                0 <= b <= 0x1_0000_0000,
                0 <= t <= 0x1_0000_0000,
        ;
        assert(lo * one / (one as int) == lo && hi * one / (one as int) == hi) by (nonlinear_arith)
            requires
                one > 0,
        ;
        let sum = a * (one - t) + b * t;
        assert(lo <= sum / (one as int) <= hi) by (nonlinear_arith)
            requires
                lo * one <= sum <= hi * one,
                one > 0,
        ;
    }
    let sum: u128 = a as u128 * rest + b as u128 * t as u128;
    (sum / one as u128) as u64
}

/// The height fractions follow a cubic distribution: a sample's height
/// fraction lies below `x` for exactly the first `65536 * x^3` of the
/// `2^64` height draws, which is the share `(x / 65536)^3` of them.
pub proof fn lemma_height_distribution(
    cone: MyPositionCone3dModifier,
    height_draw: u64,
    radius_draw: u32,
    azimuth_draw: u32,
    speed_draw: u32,
    out: ConeSample,
    x: int,
)
    requires
        cone.samples(height_draw, radius_draw, azimuth_draw, speed_draw, out),
        0 <= x,
    ensures
        out.height_fraction < x <==> height_draw < FRACTION_ONE * (x * x * x),
{
    lemma_cbrt_floor_below(out.height_fraction as int, height_draw as int / 65_536, x);
}

/// The radius fractions follow a quadratic distribution: a sample's radius
/// fraction lies below `x` for exactly the first `x^2` of the `2^32`
/// radius draws, which is the share `(x / 65536)^2` of them.
pub proof fn lemma_radius_distribution(
    cone: MyPositionCone3dModifier,
    height_draw: u64,
    radius_draw: u32,
    azimuth_draw: u32,
    speed_draw: u32,
    out: ConeSample,
    x: int,
)
    requires
        cone.samples(height_draw, radius_draw, azimuth_draw, speed_draw, out),
        0 <= x,
    ensures
        out.radius_fraction < x <==> radius_draw < x * x,
{
    lemma_sqrt_floor_below(out.radius_fraction as int, radius_draw as int, 1, x);
}

/// Four draws stand for one sample only.
pub proof fn lemma_sample_unique(
    cone: MyPositionCone3dModifier,
    height_draw: u64,
    radius_draw: u32,
    azimuth_draw: u32,
    speed_draw: u32,
    a: ConeSample,
    b: ConeSample,
)
    requires
        cone.samples(height_draw, radius_draw, azimuth_draw, speed_draw, a),
        cone.samples(height_draw, radius_draw, azimuth_draw, speed_draw, b),
    ensures
        a == b,
{
    let n = height_draw as int / 65_536;
    lemma_cbrt_floor_below(a.height_fraction as int, n, b.height_fraction as int);
    lemma_cbrt_floor_below(b.height_fraction as int, n, a.height_fraction as int);
    lemma_sqrt_floor_below(a.radius_fraction as int, radius_draw as int, 1, b.radius_fraction as int);
    lemma_sqrt_floor_below(b.radius_fraction as int, radius_draw as int, 1, a.radius_fraction as int);
}

} // verus!
