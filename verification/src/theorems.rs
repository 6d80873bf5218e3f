//! What holds of the simulation on every input: the symmetry of gravity,
//! the exchange of velocities between equal masses, the effect of a press,
//! and the rest of a lone particle.

use crate::interaction::{collided, exchanged, overlapping, pull, RESTITUTION, TWO};
use crate::particle::{Body, WINDOW_HEIGHT, WINDOW_WIDTH};
use crate::scalar::{
    lemma_norm_even, lemma_product_commutes, lemma_product_odd, lemma_product_one,
    lemma_product_zero, lemma_ratio_odd, lemma_ratio_self, lemma_ratio_zero, negation, product,
    ratio, sum, SCALE,
};
use crate::simulation::{
    attracted, gravitated, kicked, moved, pushed, separated, settled, swept, under, World, IMPULSE,
};
use crate::vector::Vec2;
use vstd::prelude::*;

verus! {

/// The force that `a` exerts on `b` is the opposite of the force that `b`
/// exerts on `a`.
pub proof fn gravity_is_mutual(a: Body, b: Body)
    ensures
        pull(b, a) == pull(a, b).opposite(),
{
    let d = a.position.minus(b.position);
    let e = b.position.minus(a.position);
    assert(e.x == -d.x && e.y == -d.y);
    lemma_norm_even(d.x, d.y);
    lemma_product_commutes(a.mass(), b.mass());
    let r = d.length();
    let r2 = product(r, r);
    if r2 != 0 {
        assert(r != 0) by {
            lemma_product_zero(0);
        }
        let strength = negation(ratio(product(a.mass(), b.mass()), r2));
        lemma_ratio_odd(d.x, r);
        lemma_ratio_odd(d.y, r);
        lemma_product_odd(d.unit().x, strength);
        lemma_product_odd(d.unit().y, strength);
    }
}

/// Two bodies of equal mass receive from their mutual attraction
/// accelerations of equal magnitude and opposite direction.
pub proof fn gravity_is_symmetric(a: Body, b: Body)
    requires
        a.mass() == b.mass(),
        a.mass() != 0,
    ensures
        pull(b, a).shrunk(b.mass()) == pull(a, b).shrunk(a.mass()).opposite(),
        pull(b, a).shrunk(b.mass()).length() == pull(a, b).shrunk(a.mass()).length(),
{
    gravity_is_mutual(a, b);
    let f = pull(a, b);
    lemma_ratio_odd(f.x, a.mass());
    lemma_ratio_odd(f.y, a.mass());
    let on_a = f.shrunk(a.mass());
    lemma_norm_even(on_a.x, on_a.y);
}

/// In a population of two, the gravity pass applies to each body the pull
/// of the other, once.
pub proof fn gravity_of_a_pair(ps: Seq<Body>)
    requires
        ps.len() == 2,
    ensures
        gravitated(ps)[0] == ps[0].forced(pull(ps[0], ps[1])),
        gravitated(ps)[1] == ps[1].forced(pull(ps[1], ps[0])),
{
    reveal_with_fuel(attracted, 3);
}

/// When two overlapping bodies of equal mass collide, each leaves with the
/// velocity that the other had, times the restitution factor.
pub proof fn equal_masses_swap_velocities(a: Body, b: Body)
    requires
        a.wf(),
        b.wf(),
        a.mass() == b.mass(),
        overlapping(a, b),
        a.velocity.bounded(),
        b.velocity.bounded(),
    ensures
        collided(a, b).0.velocity == b.velocity.scaled(RESTITUTION as int),
        collided(a, b).1.velocity == a.velocity.scaled(RESTITUTION as int),
{
    let m = a.mass();
    let total = sum(m, m);
    lemma_ratio_zero(total);
    assert(product(TWO as int, m) == total) by {
        vstd::arithmetic::div_mod::lemma_div_multiples_vanish(2 * m, SCALE as int);
        assert(TWO * m == SCALE * (2 * m));
    }
    lemma_ratio_self(total);
    lemma_product_zero(a.velocity.x);
    lemma_product_zero(a.velocity.y);
    lemma_product_zero(b.velocity.x);
    lemma_product_zero(b.velocity.y);
    lemma_product_one(a.velocity.x);
    lemma_product_one(a.velocity.y);
    lemma_product_one(b.velocity.x);
    lemma_product_one(b.velocity.y);
    assert(exchanged(m, a.velocity, m, b.velocity) == b.velocity);
    assert(exchanged(m, b.velocity, m, a.velocity) == a.velocity);
}

/// However many press events precede a tick, one press is pending.
pub proof fn presses_do_not_add_up(w: World)
    ensures
        w.pressed().pressed() == w.pressed(),
        w.pressed().click_pending,
{
}

/// A tick with a press pending adds the impulse once to the velocity of
/// every body that the pointer lies inside after the motion of that tick,
/// and consumes the press: the tick after it adds none.
pub proof fn press_kicks_once(w: World, dt: int, next: int, i: int)
    requires
        w.click_pending,
        0 <= i < w.particles.len(),
        under(moved(w.particles, dt)[i], w.pointer),
    ensures
        w.ticked(dt).particles == separated(
            gravitated(pushed(moved(w.particles, dt), w.pointer)),
        ),
        pushed(moved(w.particles, dt), w.pointer)[i] == kicked(moved(w.particles, dt)[i]),
        kicked(moved(w.particles, dt)[i]).velocity == moved(w.particles, dt)[i].velocity.plus(
            Vec2 { x: IMPULSE as int, y: 0 },
        ),
        !w.ticked(dt).click_pending,
        w.ticked(dt).ticked(next).particles == separated(
            gravitated(moved(w.ticked(dt).particles, next)),
        ),
{
}

/// A tick changes nothing in a world without a pending press whose only
/// body lies inside the borders and has neither velocity nor acceleration.
pub proof fn resting_body_stays(w: World, dt: int)
    requires
        w.particles.len() == 1,
        !w.click_pending,
        w.particles[0].inside(),
        w.particles[0].velocity == Vec2::origin(),
        w.particles[0].acceleration == Vec2::origin(),
    ensures
        w.ticked(dt) == w,
{
    let ps = w.particles;
    lemma_product_zero(dt);
    lemma_product_zero(crate::particle::DAMPING as int);
    assert(ps[0].bounced() == ps[0]);
    assert(ps[0].integrated(dt) == ps[0]);
    assert(moved(ps, dt) =~= ps);
    reveal_with_fuel(attracted, 2);
    assert(gravitated(ps) =~= ps);
    reveal_with_fuel(swept, 2);
    reveal_with_fuel(settled, 2);
    assert(separated(ps) =~= ps);
}

/// A single particle at the centre of the rectangle, no larger than the
/// rectangle, with neither velocity nor acceleration and no press pending,
/// is where it was after any number of ticks of any lengths.
pub proof fn lone_particle_rests(w: World, dts: Seq<int>)
    requires
        w.particles.len() == 1,
        !w.click_pending,
        w.particles[0].position == (Vec2 { x: WINDOW_WIDTH / 2, y: WINDOW_HEIGHT / 2 }),
        w.particles[0].fits(WINDOW_HEIGHT as int),
        w.particles[0].velocity == Vec2::origin(),
        w.particles[0].acceleration == Vec2::origin(),
    ensures
        w.after(dts) == w,
    decreases dts.len(),
{
    if dts.len() > 0 {
        lone_particle_rests(w, dts.drop_last());
        resting_body_stays(w, dts.last());
    }
}

} // verus!
