//! The initial population: particles scattered at random over the rectangle.

use crate::particle::{Body, Particle, TWO_PI, WINDOW_HEIGHT, WINDOW_WIDTH};
use crate::scalar::{clamp, difference, product, sum, toward_zero, Scalar, SCALE};
use crate::simulation::App;
use crate::vector::{Vec2, Vector};
use rand::rngs::ThreadRng;
use rand::Rng;
use vstd::prelude::*;

verus! {

/// Raw value of the smallest radius of a scattered particle: 5 units.
pub const RADIUS_MIN: i64 = 5_000_000_000;

/// Raw value of the width of the range of radii: 10 units.
pub const RADIUS_SPAN: i64 = 10_000_000_000;

/// Raw value of the largest speed along one axis of a scattered particle:
/// 50 units.
pub const SPEED_MAX: i64 = 50_000_000_000;

/// Raw value of the width of the range of speeds along one axis: 100 units.
pub const SPEED_SPAN: i64 = 100_000_000_000;

/// Whether `u` is the raw value of a fraction: at least zero and less than
/// one.
pub open spec fn is_fraction(u: int) -> bool {
    0 <= u < SCALE
}

/// The body that five fractions select: a position within the rectangle, a
/// velocity within the range of speeds along each axis, no acceleration,
/// and a radius within the range of radii.
pub open spec fn placed(x: int, y: int, vx: int, vy: int, r: int) -> Body {
    Body {
        position: Vec2 {
            x: product(x, WINDOW_WIDTH as int),
            y: product(y, WINDOW_HEIGHT as int),
        },
        velocity: Vec2 {
            x: difference(product(vx, SPEED_SPAN as int), SPEED_MAX as int),
            y: difference(product(vy, SPEED_SPAN as int), SPEED_MAX as int),
        },
        acceleration: Vec2::origin(),
        radius: sum(RADIUS_MIN as int, product(r, RADIUS_SPAN as int)),
    }
}

/// Whether a body is one that scattering can produce: inside the ranges of
/// position, velocity and radius, at rest in acceleration, and well formed.
pub open spec fn scattered(body: Body) -> bool {
    &&& 0 <= body.position.x < WINDOW_WIDTH
    &&& 0 <= body.position.y < WINDOW_HEIGHT
    &&& -SPEED_MAX <= body.velocity.x < SPEED_MAX
    &&& -SPEED_MAX <= body.velocity.y < SPEED_MAX
    &&& body.acceleration == Vec2::origin()
    &&& RADIUS_MIN <= body.radius < RADIUS_MIN + RADIUS_SPAN
    &&& body.wf()
}

/// A fraction of a positive span lies within the span.
pub proof fn lemma_fraction_of_span(u: int, span: int)
    requires
        is_fraction(u),
        0 < span <= crate::scalar::LIMIT,
    ensures
        0 <= product(u, span) < span,
        product(u, span) == (u * span) / (SCALE as int),
{
    assert(0 <= u * span && u * span < SCALE * span) by (nonlinear_arith)
        requires
            0 <= u < SCALE,
            0 < span,
    ;
    vstd::arithmetic::div_mod::lemma_div_multiples_vanish(span, SCALE as int);
    vstd::arithmetic::div_mod::lemma_div_is_ordered(0, u * span, SCALE as int);
    vstd::arithmetic::div_mod::lemma_div_is_ordered(u * span, SCALE * span - 1, SCALE as int);
    vstd::arithmetic::div_mod::lemma_div_multiples_vanish_fancy(span - 1, SCALE - 1, SCALE as int);
    assert(SCALE * (span - 1) + (SCALE - 1) == SCALE * span - 1) by (nonlinear_arith);
}

/// A radius of at least the smallest scattered radius gives a positive mass.
pub proof fn lemma_scattered_radius_has_mass(radius: int)
    requires
        RADIUS_MIN <= radius < RADIUS_MIN + RADIUS_SPAN,
    ensures
        product(TWO_PI as int, product(radius, radius)) > 0,
{
    let square = radius * radius;
    assert(25_000_000_000_000_000_000 <= square && square < 225_000_000_000_000_000_000)
        by (nonlinear_arith)
        requires
            5_000_000_000 <= radius < 15_000_000_000,
            square == radius * radius,
    ;
    let area = square / 1_000_000_000;
    assert(25_000_000_000 <= area <= 225_000_000_000);
    assert(product(radius, radius) == area);
    let scaled = TWO_PI * area;
    assert(6_283_185_307 * 25_000_000_000 <= scaled <= 6_283_185_307 * 225_000_000_000);
    assert(product(TWO_PI as int, area) == clamp(scaled / 1_000_000_000));
}

impl Particle {
    /// The particle that five fractions select: `x` and `y` place it within
    /// the rectangle, `vx` and `vy` pick its velocity along each axis, and
    /// `r` picks its radius.
    pub fn place(x: Scalar, y: Scalar, vx: Scalar, vy: Scalar, r: Scalar) -> (p: Particle)
        ensures
            p@ == placed(x@, y@, vx@, vy@, r@),
            is_fraction(x@) && is_fraction(y@) && is_fraction(vx@) && is_fraction(vy@)
                && is_fraction(r@) ==> scattered(p@),
    {
        let span: Scalar = Scalar { raw: SPEED_SPAN };
        let top: Scalar = Scalar { raw: SPEED_MAX };
        let p: Particle = Particle {
            position: Vector {
                x: x.mul(Scalar { raw: WINDOW_WIDTH }),
                y: y.mul(Scalar { raw: WINDOW_HEIGHT }),
            },
            velocity: Vector { x: vx.mul(span).sub(top), y: vy.mul(span).sub(top) },
            acceleration: Vector { x: Scalar { raw: 0 }, y: Scalar { raw: 0 } },
            radius: Scalar { raw: RADIUS_MIN }.add(r.mul(Scalar { raw: RADIUS_SPAN })),
        };
        proof {
            if is_fraction(x@) && is_fraction(y@) && is_fraction(vx@) && is_fraction(vy@)
                && is_fraction(r@) {
                lemma_fraction_of_span(x@, WINDOW_WIDTH as int);
                lemma_fraction_of_span(y@, WINDOW_HEIGHT as int);
                lemma_fraction_of_span(vx@, SPEED_SPAN as int);
                lemma_fraction_of_span(vy@, SPEED_SPAN as int);
                lemma_fraction_of_span(r@, RADIUS_SPAN as int);
                lemma_scattered_radius_has_mass(p@.radius);
            }
        }
        p
    }
}

/// The thread-local generator of `rand`. Nothing is claimed of it.
#[verifier::external_type_specification]
#[verifier::external_body]
pub struct ExThreadRng(ThreadRng);

/// `rand::thread_rng` hands out the generator of the calling thread. The
/// contract claims nothing of the generator.
pub assume_specification[ rand::thread_rng ]() -> (rng: ThreadRng)
;

/// `Rng::gen_range` on the half-open range `0..bound`: the value that it
/// draws is less than `bound`. The call panics on an empty range, which
/// the precondition leaves out. Nothing else is claimed of the value: two
/// calls may differ.
#[verifier::external_body]
fn draw_below(rng: &mut ThreadRng, bound: u64) -> (value: u64)
    requires
        bound > 0,
    ensures
        value < bound,
{
    rng.gen_range(0..bound)
}

/// A fraction drawn at random: at least zero and less than one.
fn draw_fraction(rng: &mut ThreadRng) -> (u: Scalar)
    ensures
        is_fraction(u@),
{
    let raw: u64 = draw_below(rng, SCALE as u64);
    Scalar { raw: raw as i64 }
}

impl App {
    /// A simulation of `count` particles scattered at random, with the
    /// pointer at the origin and no press pending. Each particle lies within
    /// the rectangle, moves within the range of speeds, and has a radius
    /// within the range of radii; which one it is depends on chance.
    pub fn random(count: usize) -> (app: App)
        ensures
            app@.particles.len() == count,
            forall|i: int| 0 <= i < count ==> scattered(#[trigger] app@.particles[i]),
            app@.pointer == Vec2::origin(),
            !app@.click_pending,
            app@.wf(),
    {
        let mut rng: ThreadRng = rand::thread_rng();
        let mut particles: Vec<Particle> = Vec::new();
        let mut i: usize = 0;
        while i < count
            invariant
                i <= count,
                particles@.len() == i,
                forall|k: int| 0 <= k < i ==> scattered(#[trigger] particles@[k]@),
            decreases count - i,
        {
            let x: Scalar = draw_fraction(&mut rng);
            let y: Scalar = draw_fraction(&mut rng);
            let vx: Scalar = draw_fraction(&mut rng);
            let vy: Scalar = draw_fraction(&mut rng);
            let r: Scalar = draw_fraction(&mut rng);
            particles.push(Particle::place(x, y, vx, vy, r));
            i += 1;
        }
        App::new(particles)
    }
}

} // verus!
