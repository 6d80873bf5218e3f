//! Circular bodies: border reflection, pseudo-mass, forces and integration.

use crate::scalar::{difference, negation, product, sum, Scalar};
use crate::vector::{Vec2, Vector};
use vstd::prelude::*;

verus! {

/// Raw width of the simulation rectangle: 1800 units.
pub const WINDOW_WIDTH: i64 = 1_800_000_000_000;

/// Raw height of the simulation rectangle: 1000 units.
pub const WINDOW_HEIGHT: i64 = 1_000_000_000_000;

/// Raw value of two pi, rounded toward zero.
pub const TWO_PI: i64 = 6_283_185_307;

/// Raw value of the factor that every integration step applies to velocity.
pub const DAMPING: i64 = 500_000_000;

/// Position and velocity along one axis after reflection at the far border
/// `extent` and then at the near border zero.
pub open spec fn reflected(position: int, velocity: int, radius: int, extent: int) -> (int, int) {
    let (p, v) = if sum(position, radius) > extent {
        (difference(extent, radius), negation(velocity))
    } else {
        (position, velocity)
    };
    if difference(p, radius) < 0 {
        (radius, negation(v))
    } else {
        (p, v)
    }
}

/// The mathematical content of a [`Particle`].
pub struct Body {
    pub position: Vec2,
    pub velocity: Vec2,
    pub acceleration: Vec2,
    pub radius: int,
}

impl Body {
    /// Pseudo-mass: two pi times the square of the radius.
    pub open spec fn mass(self) -> int {
        product(TWO_PI as int, product(self.radius, self.radius))
    }

    /// A body is well formed when its radius is positive and large enough for
    /// its mass not to round to zero.
    pub open spec fn wf(self) -> bool {
        self.radius > 0 && self.mass() > 0
    }

    /// Whether the body is small enough to lie between two opposite borders
    /// that are `extent` apart: its radius is positive and its diameter at
    /// most `extent`.
    pub open spec fn fits(self, extent: int) -> bool {
        0 < self.radius && 2 * self.radius <= extent
    }

    /// Whether the body lies fully inside the rectangle.
    pub open spec fn inside(self) -> bool {
        &&& 0 < self.radius
        &&& self.radius <= self.position.x <= WINDOW_WIDTH - self.radius
        &&& self.radius <= self.position.y <= WINDOW_HEIGHT - self.radius
    }

    /// The body after reflection at the borders of the rectangle, each axis
    /// on its own.
    pub open spec fn bounced(self) -> Body {
        let (px, vx) = reflected(self.position.x, self.velocity.x, self.radius, WINDOW_WIDTH as int);
        let (py, vy) = reflected(
            self.position.y,
            self.velocity.y,
            self.radius,
            WINDOW_HEIGHT as int,
        );
        Body {
            position: Vec2 { x: px, y: py },
            velocity: Vec2 { x: vx, y: vy },
            acceleration: self.acceleration,
            radius: self.radius,
        }
    }

    /// The body with `force`, divided by its mass, added to its acceleration.
    pub open spec fn forced(self, force: Vec2) -> Body
        recommends
            self.mass() != 0,
    {
        Body {
            position: self.position,
            velocity: self.velocity,
            acceleration: self.acceleration.plus(force.shrunk(self.mass())),
            radius: self.radius,
        }
    }

    /// The body after one integration step of length `dt`: the acceleration
    /// joins the velocity, the position moves by that velocity times `dt`,
    /// the velocity is then halved and the acceleration cleared.
    pub open spec fn integrated(self, dt: int) -> Body {
        let v = self.velocity.plus(self.acceleration);
        Body {
            position: self.position.plus(v.scaled(dt)),
            velocity: v.scaled(DAMPING as int),
            acceleration: Vec2::origin(),
            radius: self.radius,
        }
    }
}

/// A circular body.
#[derive(Clone, Copy, Debug, PartialEq, Eq, Structural)]
pub struct Particle {
    pub position: Vector,
    pub velocity: Vector,
    pub acceleration: Vector,
    pub radius: Scalar,
}

impl View for Particle {
    type V = Body;

    open spec fn view(&self) -> Body {
        Body {
            position: self.position@,
            velocity: self.velocity@,
            acceleration: self.acceleration@,
            radius: self.radius@,
        }
    }
}

impl Particle {
    /// Reflects the particle at the borders of the rectangle: where its edge
    /// lies beyond a border, the position is set so that the edge touches the
    /// border and the velocity along that axis changes sign. A particle
    /// inside the rectangle is left as it is. A particle wider than the
    /// rectangle is reflected at both borders of an axis in turn, and ends
    /// at the near one with its velocity as it was.
    pub fn update_border_collision(&mut self)
        ensures
            final(self)@ == old(self)@.bounced(),
            final(self)@.acceleration == old(self)@.acceleration,
            final(self)@.radius == old(self)@.radius,
            old(self)@.inside() ==> final(self)@ == old(self)@,
            old(self)@.fits(WINDOW_WIDTH as int) && old(self)@.position.x + old(self)@.radius
                > WINDOW_WIDTH ==> (final(self)@.position.x == WINDOW_WIDTH - old(self)@.radius
                && final(self)@.velocity.x == negation(old(self)@.velocity.x)),
            old(self)@.fits(WINDOW_HEIGHT as int) && old(self)@.position.y + old(self)@.radius
                > WINDOW_HEIGHT ==> (final(self)@.position.y == WINDOW_HEIGHT - old(self)@.radius
                && final(self)@.velocity.y == negation(old(self)@.velocity.y)),
            old(self)@.fits(WINDOW_WIDTH as int) && old(self)@.position.x - old(self)@.radius < 0
                ==> (final(self)@.position.x == old(self)@.radius && final(self)@.velocity.x
                == negation(old(self)@.velocity.x)),
            old(self)@.fits(WINDOW_HEIGHT as int) && old(self)@.position.y - old(self)@.radius < 0
                ==> (final(self)@.position.y == old(self)@.radius && final(self)@.velocity.y
                == negation(old(self)@.velocity.y)),
    {
        let width: Scalar = Scalar { raw: WINDOW_WIDTH };
        let height: Scalar = Scalar { raw: WINDOW_HEIGHT };
        let floor: Scalar = Scalar { raw: 0 };
        if width.lt(self.position.x.add(self.radius)) {
            self.position.x = width.sub(self.radius);
            self.velocity.x = self.velocity.x.neg();
        }
        if height.lt(self.position.y.add(self.radius)) {
            self.position.y = height.sub(self.radius);
            self.velocity.y = self.velocity.y.neg();
        }
        if self.position.x.sub(self.radius).lt(floor) {
            self.position.x = self.radius;
            self.velocity.x = self.velocity.x.neg();
        }
        if self.position.y.sub(self.radius).lt(floor) {
            self.position.y = self.radius;
            self.velocity.y = self.velocity.y.neg();
        }
    }

    /// The pseudo-mass of the particle.
    pub fn mass(&self) -> (m: Scalar)
        ensures
            m@ == self@.mass(),
    {
        Scalar { raw: TWO_PI }.mul(self.radius.mul(self.radius))
    }

    /// Whether the particle is well formed.
    pub fn is_wf(&self) -> (b: bool)
        ensures
            b == self@.wf(),
    {
        self.radius.raw > 0 && self.mass().raw > 0
    }

    /// Adds `force`, divided by the mass, to the acceleration.
    pub fn apply_force(&mut self, force: &Vector)
        requires
            old(self)@.mass() != 0,
        ensures
            final(self)@ == old(self)@.forced(force@),
    {
        let f: Vector = force.shrink(self.mass());
        self.acceleration.add(&f);
    }

    /// Advances the particle by one step of length `dt`.
    pub fn update(&mut self, dt: Scalar)
        ensures
            final(self)@ == old(self)@.integrated(dt@),
    {
        self.velocity.add(&self.acceleration);
        let dv: Vector = self.velocity.mult(dt);
        self.velocity = self.velocity.mult(Scalar { raw: DAMPING });
        self.position.add(&dv);
        self.acceleration.zero();
    }
}

} // verus!
