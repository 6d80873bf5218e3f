//! Vectors of the plane with fixed-point components.

use crate::scalar::{bounded, difference, negation, norm, product, ratio, sum, Scalar};
use vstd::prelude::*;

verus! {

/// The mathematical content of a [`Vector`]: its two raw components.
pub struct Vec2 {
    pub x: int,
    pub y: int,
}

impl Vec2 {
    /// The vector with both components zero.
    pub open spec fn origin() -> Vec2 {
        Vec2 { x: 0, y: 0 }
    }

    /// Componentwise sum.
    pub open spec fn plus(self, other: Vec2) -> Vec2 {
        Vec2 { x: sum(self.x, other.x), y: sum(self.y, other.y) }
    }

    /// Componentwise difference.
    pub open spec fn minus(self, other: Vec2) -> Vec2 {
        Vec2 { x: difference(self.x, other.x), y: difference(self.y, other.y) }
    }

    /// Both components multiplied by the scalar with raw value `s`.
    pub open spec fn scaled(self, s: int) -> Vec2 {
        Vec2 { x: product(self.x, s), y: product(self.y, s) }
    }

    /// Both components divided by the scalar with raw value `s`.
    pub open spec fn shrunk(self, s: int) -> Vec2
        recommends
            s != 0,
    {
        Vec2 { x: ratio(self.x, s), y: ratio(self.y, s) }
    }

    /// Both components with their sign flipped.
    pub open spec fn opposite(self) -> Vec2 {
        Vec2 { x: negation(self.x), y: negation(self.y) }
    }

    /// Whether both components lie within `[-LIMIT, LIMIT]`.
    pub open spec fn bounded(self) -> bool {
        bounded(self.x) && bounded(self.y)
    }

    /// Euclidean norm.
    pub open spec fn length(self) -> int {
        norm(self.x, self.y)
    }

    /// The vector divided by its norm; the origin where the norm is zero.
    pub open spec fn unit(self) -> Vec2 {
        if self.length() == 0 {
            Vec2::origin()
        } else {
            self.shrunk(self.length())
        }
    }
}

/// A vector of the plane.
#[derive(Clone, Copy, Debug, PartialEq, Eq, Structural)]
pub struct Vector {
    pub x: Scalar,
    pub y: Scalar,
}

impl View for Vector {
    type V = Vec2;

    open spec fn view(&self) -> Vec2 {
        Vec2 { x: self.x@, y: self.y@ }
    }
}

impl Vector {
    /// Adds `other` to this vector in place.
    pub fn add(&mut self, other: &Vector)
        ensures
            final(self)@ == old(self)@.plus(other@),
    {
        self.x = self.x.add(other.x);
        self.y = self.y.add(other.y);
    }

    /// The difference `self - other`.
    pub fn sub(&self, other: &Vector) -> (r: Vector)
        ensures
            r@ == self@.minus(other@),
    {
        Vector { x: self.x.sub(other.x), y: self.y.sub(other.y) }
    }

    /// The vector scaled by `scalar`.
    pub fn mult(&self, scalar: Scalar) -> (r: Vector)
        ensures
            r@ == self@.scaled(scalar@),
    {
        Vector { x: self.x.mul(scalar), y: self.y.mul(scalar) }
    }

    /// The vector divided by the nonzero `scalar`.
    pub fn shrink(&self, scalar: Scalar) -> (r: Vector)
        requires
            scalar@ != 0,
        ensures
            r@ == self@.shrunk(scalar@),
    {
        Vector { x: self.x.div(scalar), y: self.y.div(scalar) }
    }

    /// The direction of this vector: the vector divided by its magnitude.
    /// A vector of magnitude zero has no direction and yields the zero vector.
    pub fn normalize(&self) -> (r: Vector)
        ensures
            r@ == self@.unit(),
    {
        let mag: Scalar = self.mag();
        if mag.raw == 0 {
            Vector { x: Scalar { raw: 0 }, y: Scalar { raw: 0 } }
        } else {
            self.shrink(mag)
        }
    }

    /// The Euclidean norm.
    pub fn mag(&self) -> (r: Scalar)
        ensures
            r@ == self@.length(),
    {
        Scalar::hypot(self.x, self.y)
    }

    /// Sets both components to zero.
    pub fn zero(&mut self)
        ensures
            final(self)@ == Vec2::origin(),
    {
        self.x = Scalar { raw: 0 };
        self.y = Scalar { raw: 0 };
    }
}

} // verus!
