//! What two bodies do to each other: gravitational attraction and the
//! resolution of an overlap.

use crate::particle::{Body, Particle};
use crate::scalar::{difference, negation, product, ratio, sum, Scalar};
use crate::vector::{Vec2, Vector};
use vstd::prelude::*;

verus! {

/// Raw value of two.
pub const TWO: i64 = 2_000_000_000;

/// Raw value of the restitution factor, 0.99.
pub const RESTITUTION: i64 = 990_000_000;

/// Raw value of the share of an overlap by which the first body of a pair
/// is moved back, 0.51.
pub const FIRST_SHARE: i64 = 510_000_000;

/// Raw value of the share of an overlap by which the second body of a pair
/// is moved on, 0.49.
pub const SECOND_SHARE: i64 = 490_000_000;

/// The gravitational force on `a` that `b` exerts: the product of the masses
/// over the squared distance, directed from `a` toward `b`. Bodies so close
/// that their squared distance rounds to zero exert no force on each other.
pub open spec fn pull(a: Body, b: Body) -> Vec2 {
    let d = a.position.minus(b.position);
    let r2 = product(d.length(), d.length());
    if r2 == 0 {
        Vec2::origin()
    } else {
        d.unit().scaled(negation(ratio(product(a.mass(), b.mass()), r2)))
    }
}

/// The velocity of a body of mass `m1` and velocity `v1` after an elastic
/// collision with a body of mass `m2` and velocity `v2`.
pub open spec fn exchanged(m1: int, v1: Vec2, m2: int, v2: Vec2) -> Vec2 {
    let total = sum(m1, m2);
    v1.scaled(ratio(difference(m1, m2), total)).plus(
        v2.scaled(ratio(product(TWO as int, m2), total)),
    )
}

/// Whether the centres of `a` and `b` are no further apart than the sum of
/// their radii.
pub open spec fn overlapping(a: Body, b: Body) -> bool {
    b.position.minus(a.position).length() <= sum(a.radius, b.radius)
}

/// The pair `(a, b)` after one visit of the collision pass. Where the two
/// overlap, `a` moves back by 51% of the overlap and `b` on by 49% of it
/// along the line of centres, and each takes its exchanged velocity times
/// the restitution factor. Where they do not, nothing changes.
pub open spec fn collided(a: Body, b: Body) -> (Body, Body) {
    if overlapping(a, b) {
        let d = b.position.minus(a.position);
        let gap = d.unit().scaled(difference(sum(a.radius, b.radius), d.length()));
        let v1 = exchanged(a.mass(), a.velocity, b.mass(), b.velocity);
        let v2 = exchanged(b.mass(), b.velocity, a.mass(), a.velocity);
        (
            Body {
                position: a.position.plus(gap.scaled(-FIRST_SHARE)),
                velocity: v1.scaled(RESTITUTION as int),
                acceleration: a.acceleration,
                radius: a.radius,
            },
            Body {
                position: b.position.plus(gap.scaled(SECOND_SHARE as int)),
                velocity: v2.scaled(RESTITUTION as int),
                acceleration: b.acceleration,
                radius: b.radius,
            },
        )
    } else {
        (a, b)
    }
}

/// The gravitational force that `b` exerts on `a`.
pub fn attraction(a: &Particle, b: &Particle) -> (f: Vector)
    ensures
        f@ == pull(a@, b@),
{
    let d: Vector = a.position.sub(&b.position);
    let r: Scalar = d.mag();
    let r2: Scalar = r.mul(r);
    if r2.raw == 0 {
        Vector { x: Scalar { raw: 0 }, y: Scalar { raw: 0 } }
    } else {
        let strength: Scalar = a.mass().mul(b.mass()).div(r2);
        d.normalize().mult(strength.neg())
    }
}

/// The velocity after an elastic collision of a body of mass `m1` and
/// velocity `v1` with one of mass `m2` and velocity `v2`.
pub fn exchange(m1: Scalar, v1: &Vector, m2: Scalar, v2: &Vector) -> (v: Vector)
    requires
        sum(m1@, m2@) != 0,
    ensures
        v@ == exchanged(m1@, v1@, m2@, v2@),
{
    let total: Scalar = m1.add(m2);
    let mut v: Vector = v1.mult(m1.sub(m2).div(total));
    v.add(&v2.mult(Scalar { raw: TWO }.mul(m2).div(total)));
    v
}

/// Resolves the overlap of `a` and `b`, if there is one: the pair after one
/// visit of the collision pass.
pub fn collide(a: Particle, b: Particle) -> (r: (Particle, Particle))
    requires
        a@.wf(),
        b@.wf(),
    ensures
        (r.0@, r.1@) == collided(a@, b@),
        r.0@.wf(),
        r.1@.wf(),
{
    let d: Vector = b.position.sub(&a.position);
    let distance: Scalar = d.mag();
    let reach: Scalar = a.radius.add(b.radius);
    if distance.le(reach) {
        let m1: Scalar = a.mass();
        let m2: Scalar = b.mass();
        let v1: Vector = exchange(m1, &a.velocity, m2, &b.velocity);
        let v2: Vector = exchange(m2, &b.velocity, m1, &a.velocity);
        let gap: Vector = d.normalize().mult(reach.sub(distance));
        let mut first: Particle = a;
        let mut second: Particle = b;
        first.position.add(&gap.mult(Scalar { raw: -FIRST_SHARE }));
        first.velocity = v1.mult(Scalar { raw: RESTITUTION });
        second.position.add(&gap.mult(Scalar { raw: SECOND_SHARE }));
        second.velocity = v2.mult(Scalar { raw: RESTITUTION });
        (first, second)
    } else {
        (a, b)
    }
}

} // verus!
