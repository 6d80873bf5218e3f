//! What a renderer needs of the simulation: one disc for each particle,
//! coloured by its speed.

use crate::particle::{Body, Particle};
use crate::scalar::{difference, ratio, Scalar, SCALE};
use crate::simulation::App;
use vstd::prelude::*;

verus! {

/// Raw value of the speed from which a particle is drawn fully red: 150
/// units.
pub const FULL_SPEED: i64 = 150_000_000_000;

/// The share of red in the colour of a body: its speed over the full speed,
/// and at most one.
pub open spec fn heat(body: Body) -> int {
    let share = ratio(body.velocity.length(), FULL_SPEED as int);
    if share > SCALE {
        SCALE as int
    } else {
        share
    }
}

/// A colour: the shares of red, green and blue, and the opacity, each
/// between zero and one.
#[derive(Clone, Copy, Debug, PartialEq, Eq, Structural)]
pub struct Color {
    pub red: Scalar,
    pub green: Scalar,
    pub blue: Scalar,
    pub alpha: Scalar,
}

/// A circle to draw: its centre, its radius and its colour.
#[derive(Clone, Copy, Debug, PartialEq, Eq, Structural)]
pub struct Disc {
    pub x: Scalar,
    pub y: Scalar,
    pub radius: Scalar,
    pub color: Color,
}

/// Whether `disc` shows `body`: at its position, of its radius, opaque, and
/// on the gradient from blue at rest to red at full speed.
pub open spec fn shows(disc: Disc, body: Body) -> bool {
    &&& disc.x@ == body.position.x
    &&& disc.y@ == body.position.y
    &&& disc.radius@ == body.radius
    &&& disc.color.red@ == heat(body)
    &&& disc.color.green@ == 0
    &&& disc.color.blue@ == difference(SCALE as int, heat(body))
    &&& disc.color.alpha@ == SCALE
}

/// The colour of a particle: blue at rest, red from the full speed on.
pub fn color_of(particle: &Particle) -> (c: Color)
    ensures
        c.red@ == heat(particle@),
        c.green@ == 0,
        c.blue@ == difference(SCALE as int, heat(particle@)),
        c.alpha@ == SCALE,
        0 <= c.red@ <= SCALE,
        0 <= c.blue@ <= SCALE,
{
    let one: Scalar = Scalar { raw: SCALE };
    let share: Scalar = particle.velocity.mag().div(Scalar { raw: FULL_SPEED });
    proof {
        lemma_share_is_not_negative(particle@);
    }
    let red: Scalar = if one.lt(share) {
        one
    } else {
        share
    };
    Color { red, green: Scalar { raw: 0 }, blue: one.sub(red), alpha: one }
}

/// A speed over the full speed is not negative.
proof fn lemma_share_is_not_negative(body: Body)
    ensures
        ratio(body.velocity.length(), FULL_SPEED as int) >= 0,
{
    let speed = body.velocity.length();
    let x = body.velocity.x;
    let y = body.velocity.y;
    assert(x * x + y * y >= 0) by (nonlinear_arith);
    crate::scalar::lemma_root_exists(x * x + y * y);
    assert(speed >= 0);
    assert(speed * SCALE >= 0);
    vstd::arithmetic::div_mod::lemma_div_basics_4(speed * SCALE, FULL_SPEED as int);
}

impl App {
    /// The discs to draw, one for each particle, in order.
    pub fn render(&self) -> (discs: Vec<Disc>)
        ensures
            discs@.len() == self@.particles.len(),
            forall|i: int| 0 <= i < discs@.len() ==> shows(#[trigger] discs@[i], self@.particles[i]),
    {
        let n: usize = self.particles.len();
        let mut discs: Vec<Disc> = Vec::new();
        let mut i: usize = 0;
        while i < n
            invariant
                i <= n,
                self.particles.len() == n,
                discs@.len() == i,
                forall|k: int| 0 <= k < i ==> shows(#[trigger] discs@[k], self@.particles[k]),
            decreases n - i,
        {
            let p: Particle = self.particles[i];
            discs.push(
                Disc { x: p.position.x, y: p.position.y, radius: p.radius, color: color_of(&p) },
            );
            i += 1;
        }
        discs
    }
}

} // verus!
