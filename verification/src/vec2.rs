//! Integer vectors of the plane and the mathematical vectors that model them.
use vstd::prelude::*;

verus! {

/// A mathematical vector of the plane with unbounded integer coordinates.
/// Contracts are stated over this type.
pub struct Vector {
    pub x: int,
    pub y: int,
}

impl Vector {
    /// The sum of two vectors.
    pub open spec fn plus(self, other: Vector) -> Vector {
        Vector { x: self.x + other.x, y: self.y + other.y }
    }

    /// The vector stretched by an integer factor.
    pub open spec fn scaled(self, k: int) -> Vector {
        Vector { x: self.x * k, y: self.y * k }
    }

    /// The scalar product.
    pub open spec fn dot(self, other: Vector) -> int {
        self.x * other.x + self.y * other.y
    }

    /// The signed area spanned with `other`.
    pub open spec fn cross(self, other: Vector) -> int {
        self.x * other.y - self.y * other.x
    }

    /// The squared Euclidean length.
    pub open spec fn norm_sq(self) -> int {
        self.dot(self)
    }

    /// Both coordinates lie in `[-bound, bound]`.
    pub open spec fn within(self, bound: int) -> bool {
        -bound <= self.x <= bound && -bound <= self.y <= bound
    }

    /// The vector turned clockwise by a right angle.
    pub open spec fn turned_cw(self) -> Vector {
        Vector { x: self.y, y: -self.x }
    }
}

/// A quarter turn keeps the length of a vector and sets it at a right
/// angle to what it was, on its clockwise side.
pub proof fn lemma_quarter_turn(v: Vector)
    ensures
        v.turned_cw().norm_sq() == v.norm_sq(),
        v.turned_cw().dot(v) == 0,
        v.turned_cw().cross(v) == v.norm_sq(),
{
    assert(v.y * v.y + (-v.x) * (-v.x) == v.x * v.x + v.y * v.y) by (nonlinear_arith);
    assert(v.y * v.x + (-v.x) * v.y == 0) by (nonlinear_arith);
    assert(v.y * v.y - (-v.x) * v.x == v.x * v.x + v.y * v.y) by (nonlinear_arith);
}

/// A vector of the plane with 64-bit integer coordinates.
#[derive(Clone, Copy, Debug, PartialEq, Eq, Structural)]
pub struct Vec2 {
    pub x: i64,
    pub y: i64,
}

impl View for Vec2 {
    type V = Vector;

    open spec fn view(&self) -> Vector {
        Vector { x: self.x as int, y: self.y as int }
    }
}

impl Vec2 {
    /// The vector with the given coordinates.
    pub fn new(x: i64, y: i64) -> (v: Vec2)
        ensures
            v.x == x,
            v.y == y,
    {
        Vec2 { x, y }
    }

    /// Whether both coordinates are zero.
    pub fn is_zero(&self) -> (z: bool)
        ensures
            z == (self.x == 0 && self.y == 0),
    {
        self.x == 0 && self.y == 0
    }

    /// Whether both coordinates lie in `[-bound, bound]`.
    pub fn fits(&self, bound: i64) -> (ok: bool)
        ensures
            ok == self@.within(bound as int),
    {
        if bound < 0 {
            false
        } else {
            -bound <= self.x && self.x <= bound && -bound <= self.y && self.y <= bound
        }
    }
}

} // verus!
