//! The simulation: a fixed population of particles, the pointer, and the
//! update that advances them by one tick.

use crate::interaction::{attraction, collide, collided, pull};
use crate::particle::{Body, Particle};
use crate::scalar::Scalar;
use crate::vector::{Vec2, Vector};
use vstd::prelude::*;

verus! {

/// Raw value of the horizontal velocity that a press adds to every particle
/// under the pointer: 300 units.
pub const IMPULSE: i64 = 300_000_000_000;

/// The mathematical content of each particle of a sequence, in order.
pub open spec fn bodies(particles: Seq<Particle>) -> Seq<Body> {
    Seq::new(particles.len(), |i: int| particles[i]@)
}

/// Whether `pointer` lies inside the body: closer to its centre than its
/// radius.
pub open spec fn under(body: Body, pointer: Vec2) -> bool {
    pointer.minus(body.position).length() < body.radius
}

/// The body with the press impulse added to its velocity.
pub open spec fn kicked(body: Body) -> Body {
    Body {
        position: body.position,
        velocity: body.velocity.plus(Vec2 { x: IMPULSE as int, y: 0 }),
        acceleration: body.acceleration,
        radius: body.radius,
    }
}

/// Every body reflected at the borders and then integrated over `dt`.
pub open spec fn moved(ps: Seq<Body>, dt: int) -> Seq<Body> {
    Seq::new(ps.len(), |i: int| ps[i].bounced().integrated(dt))
}

/// Every body under the pointer kicked, the others unchanged.
pub open spec fn pushed(ps: Seq<Body>, pointer: Vec2) -> Seq<Body> {
    Seq::new(
        ps.len(),
        |i: int|
            if under(ps[i], pointer) {
                kicked(ps[i])
            } else {
                ps[i]
            },
    )
}

/// Body `i` after the forces of its partners `0..k` have been applied to it,
/// in order, each exactly once; a body exerts no force on itself.
pub open spec fn attracted(ps: Seq<Body>, i: int, k: int) -> Body
    decreases k,
{
    if k <= 0 {
        ps[i]
    } else if k - 1 == i {
        attracted(ps, i, k - 1)
    } else {
        attracted(ps, i, k - 1).forced(pull(ps[i], ps[k - 1]))
    }
}

/// Every body after the forces of all the others have been applied to it.
pub open spec fn gravitated(ps: Seq<Body>) -> Seq<Body> {
    Seq::new(ps.len(), |i: int| attracted(ps, i, ps.len() as int))
}

/// The bodies after the collision pass has visited the ordered pair
/// `(i, j)`: nothing happens where `i == j`.
pub open spec fn visited(ps: Seq<Body>, i: int, j: int) -> Seq<Body> {
    if i == j {
        ps
    } else {
        let pair = collided(ps[i], ps[j]);
        ps.update(i, pair.0).update(j, pair.1)
    }
}

/// The bodies after the collision pass has visited the pairs
/// `(i, 0), .., (i, k - 1)` in order.
pub open spec fn swept(ps: Seq<Body>, i: int, k: int) -> Seq<Body>
    decreases k,
{
    if k <= 0 {
        ps
    } else {
        visited(swept(ps, i, k - 1), i, k - 1)
    }
}

/// The bodies after the collision pass has gone through the rows
/// `0, .., k - 1`, each row visiting every partner.
pub open spec fn settled(ps: Seq<Body>, k: int) -> Seq<Body>
    decreases k,
{
    if k <= 0 {
        ps
    } else {
        swept(settled(ps, k - 1), k - 1, ps.len() as int)
    }
}

/// The bodies after the whole collision pass: every ordered pair of distinct
/// indices visited once, row by row, so that an overlapping pair is resolved
/// once as `(i, j)` and once more as `(j, i)` if it still overlaps then.
pub open spec fn separated(ps: Seq<Body>) -> Seq<Body> {
    settled(ps, ps.len() as int)
}

/// Whether two populations have the same size and, index by index, the same
/// radii.
pub open spec fn same_shape(a: Seq<Body>, b: Seq<Body>) -> bool {
    &&& a.len() == b.len()
    &&& forall|i: int| 0 <= i < a.len() ==> (#[trigger] a[i]).radius == b[i].radius
}

/// The mathematical content of an [`App`].
pub struct World {
    pub particles: Seq<Body>,
    pub pointer: Vec2,
    pub click_pending: bool,
}

impl World {
    /// A world is well formed when each of its bodies is.
    pub open spec fn wf(self) -> bool {
        forall|i: int| 0 <= i < self.particles.len() ==> (#[trigger] self.particles[i]).wf()
    }

    /// The world after a press event: a press is pending.
    pub open spec fn pressed(self) -> World {
        World { particles: self.particles, pointer: self.pointer, click_pending: true }
    }

    /// The world after the pointer has moved to `to`.
    pub open spec fn pointed(self, to: Vec2) -> World {
        World { particles: self.particles, pointer: to, click_pending: self.click_pending }
    }

    /// The world after one tick for each element of `dts`, in order.
    pub open spec fn after(self, dts: Seq<int>) -> World
        decreases dts.len(),
    {
        if dts.len() == 0 {
            self
        } else {
            self.after(dts.drop_last()).ticked(dts.last())
        }
    }

    /// The world after one tick of length `dt`: every body is reflected and
    /// integrated; if a press is pending, the bodies under the pointer are
    /// kicked; gravity is accumulated; overlaps are resolved; and the press
    /// is consumed.
    pub open spec fn ticked(self, dt: int) -> World {
        let after_motion = moved(self.particles, dt);
        let after_press = if self.click_pending {
            pushed(after_motion, self.pointer)
        } else {
            after_motion
        };
        World {
            particles: separated(gravitated(after_press)),
            pointer: self.pointer,
            click_pending: false,
        }
    }
}

/// The simulation state.
pub struct App {
    pub particles: Vec<Particle>,
    pub mouse_position: Vector,
    pub mouse_click: bool,
}

impl View for App {
    type V = World;

    open spec fn view(&self) -> World {
        World {
            particles: bodies(self.particles@),
            pointer: self.mouse_position@,
            click_pending: self.mouse_click,
        }
    }
}

impl App {
    /// A simulation of the given particles, with the pointer at the origin
    /// and no press pending.
    pub fn new(particles: Vec<Particle>) -> (app: App)
        ensures
            app@.particles == bodies(particles@),
            app@.pointer == Vec2::origin(),
            !app@.click_pending,
    {
        App {
            particles,
            mouse_position: Vector { x: Scalar { raw: 0 }, y: Scalar { raw: 0 } },
            mouse_click: false,
        }
    }

    /// Whether every particle is well formed.
    pub fn is_wf(&self) -> (b: bool)
        ensures
            b == self@.wf(),
    {
        let n: usize = self.particles.len();
        let mut i: usize = 0;
        while i < n
            invariant
                i <= n,
                self.particles.len() == n,
                forall|k: int| 0 <= k < i ==> (#[trigger] self@.particles[k]).wf(),
            decreases n - i,
        {
            if !self.particles[i].is_wf() {
                assert(!self@.particles[i as int].wf());
                return false;
            }
            i += 1;
        }
        true
    }

    /// Records a press event: the next update applies the impulse.
    pub fn press(&mut self)
        ensures
            final(self)@ == old(self)@.pressed(),
    {
        self.mouse_click = true;
    }

    /// Records that the pointer has moved to `(x, y)`.
    pub fn move_pointer(&mut self, x: Scalar, y: Scalar)
        ensures
            final(self)@ == old(self)@.pointed(Vec2 { x: x@, y: y@ }),
    {
        self.mouse_position = Vector { x, y };
    }

    /// Reflects every particle at the borders and integrates it over `dt`.
    pub fn advance(&mut self, dt: Scalar)
        ensures
            final(self)@.particles == moved(old(self)@.particles, dt@),
            final(self)@.pointer == old(self)@.pointer,
            final(self)@.click_pending == old(self)@.click_pending,
    {
        let n: usize = self.particles.len();
        let mut i: usize = 0;
        while i < n
            invariant
                i <= n,
                self.particles.len() == n,
                old(self).particles.len() == n,
                self.mouse_position == old(self).mouse_position,
                self.mouse_click == old(self).mouse_click,
                forall|k: int|
                    0 <= k < i ==> self.particles@[k]@ == old(self).particles@[k]@.bounced().integrated(
                        dt@,
                    ),
                forall|k: int| i <= k < n ==> self.particles@[k] == old(self).particles@[k],
            decreases n - i,
        {
            let mut p: Particle = self.particles[i];
            p.update_border_collision();
            p.update(dt);
            self.particles.set(i, p);
            i += 1;
        }
        assert(bodies(self.particles@) =~= moved(bodies(old(self).particles@), dt@));
    }

    /// Adds the press impulse to the velocity of every particle that the
    /// pointer lies inside.
    pub fn apply_impulse(&mut self)
        ensures
            final(self)@.particles == pushed(old(self)@.particles, old(self)@.pointer),
            final(self)@.pointer == old(self)@.pointer,
            final(self)@.click_pending == old(self)@.click_pending,
    {
        let n: usize = self.particles.len();
        let impulse: Vector = Vector { x: Scalar { raw: IMPULSE }, y: Scalar { raw: 0 } };
        let mut i: usize = 0;
        while i < n
            invariant
                i <= n,
                self.particles.len() == n,
                old(self).particles.len() == n,
                self.mouse_position == old(self).mouse_position,
                self.mouse_click == old(self).mouse_click,
                impulse@ == (Vec2 { x: IMPULSE as int, y: 0 }),
                forall|k: int|
                    0 <= k < i ==> self.particles@[k]@ == pushed(
                        bodies(old(self).particles@),
                        old(self).mouse_position@,
                    )[k],
                forall|k: int| i <= k < n ==> self.particles@[k] == old(self).particles@[k],
            decreases n - i,
        {
            let mut p: Particle = self.particles[i];
            let difference: Vector = self.mouse_position.sub(&p.position);
            if difference.mag().lt(p.radius) {
                p.velocity.add(&impulse);
                self.particles.set(i, p);
            }
            i += 1;
        }
        assert(bodies(self.particles@) =~= pushed(
            bodies(old(self).particles@),
            old(self).mouse_position@,
        ));
    }

    /// Applies to every particle the gravitational force of every other.
    pub fn apply_gravity(&mut self)
        requires
            old(self)@.wf(),
        ensures
            final(self)@.particles == gravitated(old(self)@.particles),
            final(self)@.pointer == old(self)@.pointer,
            final(self)@.click_pending == old(self)@.click_pending,
            final(self)@.wf(),
    {
        let n: usize = self.particles.len();
        let ghost before: Seq<Body> = self@.particles;
        let mut i: usize = 0;
        while i < n
            invariant
                i <= n,
                self.particles.len() == n,
                before.len() == n,
                self.mouse_position == old(self).mouse_position,
                self.mouse_click == old(self).mouse_click,
                forall|k: int| 0 <= k < n ==> (#[trigger] before[k]).wf(),
                forall|k: int| 0 <= k < i ==> self.particles@[k]@ == attracted(before, k, n as int),
                forall|k: int| i <= k < n ==> self.particles@[k]@ == before[k],
            decreases n - i,
        {
            let mut p: Particle = self.particles[i];
            let mut j: usize = 0;
            while j < n
                invariant
                    i < n,
                    j <= n,
                    self.particles.len() == n,
                    before.len() == n,
                    forall|k: int| 0 <= k < n ==> (#[trigger] before[k]).wf(),
                    forall|k: int|
                        0 <= k < i ==> self.particles@[k]@ == attracted(before, k, n as int),
                    forall|k: int| i <= k < n ==> self.particles@[k]@ == before[k],
                    p@ == attracted(before, i as int, j as int),
                decreases n - j,
            {
                if i != j {
                    proof {
                        lemma_attracted_frame(before, i as int, j as int);
                        lemma_attracted_frame(before, j as int, n as int);
                    }
                    let f: Vector = attraction(&p, &self.particles[j]);
                    p.apply_force(&f);
                }
                j += 1;
            }
            self.particles.set(i, p);
            i += 1;
        }
        assert(bodies(self.particles@) =~= gravitated(before));
        assert forall|k: int| 0 <= k < n implies (#[trigger] bodies(self.particles@)[k]).wf() by {
            lemma_attracted_frame(before, k, n as int);
        }
    }

    /// One visit of the collision pass: resolves the overlap of the particles
    /// `i` and `j`, if they are distinct and overlap.
    fn visit(&mut self, i: usize, j: usize)
        requires
            old(self)@.wf(),
            i < old(self).particles.len(),
            j < old(self).particles.len(),
        ensures
            final(self)@.particles == visited(old(self)@.particles, i as int, j as int),
            final(self)@.particles.len() == old(self)@.particles.len(),
            final(self)@.pointer == old(self)@.pointer,
            final(self)@.click_pending == old(self)@.click_pending,
            final(self)@.wf(),
    {
        if i != j {
            assert(old(self)@.particles[i as int].wf() && old(self)@.particles[j as int].wf());
            let pair: (Particle, Particle) = collide(self.particles[i], self.particles[j]);
            self.particles.set(i, pair.0);
            self.particles.set(j, pair.1);
            assert(bodies(self.particles@) =~= visited(old(self)@.particles, i as int, j as int));
        }
    }

    /// One row of the collision pass: visits the pairs of particle `i` with
    /// every particle, in order.
    fn sweep(&mut self, i: usize)
        requires
            old(self)@.wf(),
            i < old(self).particles.len(),
        ensures
            final(self)@.particles == swept(
                old(self)@.particles,
                i as int,
                old(self)@.particles.len() as int,
            ),
            final(self)@.particles.len() == old(self)@.particles.len(),
            final(self)@.pointer == old(self)@.pointer,
            final(self)@.click_pending == old(self)@.click_pending,
            final(self)@.wf(),
    {
        let n: usize = self.particles.len();
        let mut j: usize = 0;
        while j < n
            invariant
                i < n,
                j <= n,
                self.particles.len() == n,
                old(self).particles.len() == n,
                self@.pointer == old(self)@.pointer,
                self@.click_pending == old(self)@.click_pending,
                self@.wf(),
                self@.particles == swept(old(self)@.particles, i as int, j as int),
            decreases n - j,
        {
            self.visit(i, j);
            j += 1;
        }
    }

    /// Resolves the overlaps: visits every ordered pair of distinct
    /// particles, row by row.
    pub fn resolve_collisions(&mut self)
        requires
            old(self)@.wf(),
        ensures
            final(self)@.particles == separated(old(self)@.particles),
            final(self)@.pointer == old(self)@.pointer,
            final(self)@.click_pending == old(self)@.click_pending,
            final(self)@.wf(),
    {
        let n: usize = self.particles.len();
        let mut i: usize = 0;
        while i < n
            invariant
                i <= n,
                self.particles.len() == n,
                old(self).particles.len() == n,
                self@.pointer == old(self)@.pointer,
                self@.click_pending == old(self)@.click_pending,
                self@.wf(),
                self@.particles == settled(old(self)@.particles, i as int),
            decreases n - i,
        {
            self.sweep(i);
            i += 1;
        }
    }

    /// Advances the simulation by one tick of length `dt` and consumes the
    /// pending press.
    pub fn update(&mut self, dt: Scalar)
        requires
            old(self)@.wf(),
        ensures
            final(self)@ == old(self)@.ticked(dt@),
            same_shape(final(self)@.particles, old(self)@.particles),
            final(self)@.pointer == old(self)@.pointer,
            !final(self)@.click_pending,
            final(self)@.wf(),
    {
        proof {
            lemma_tick_keeps_shape(old(self)@, dt@);
            lemma_moved_wf(old(self)@.particles, dt@);
        }
        self.advance(dt);
        if self.mouse_click {
            self.apply_impulse();
        }
        self.apply_gravity();
        self.resolve_collisions();
        self.mouse_click = false;
    }
}

/// The forces of its partners change the acceleration of a body and
/// nothing else.
pub proof fn lemma_attracted_frame(ps: Seq<Body>, i: int, k: int)
    ensures
        attracted(ps, i, k).position == ps[i].position,
        attracted(ps, i, k).velocity == ps[i].velocity,
        attracted(ps, i, k).radius == ps[i].radius,
    decreases k,
{
    if k > 0 {
        lemma_attracted_frame(ps, i, k - 1);
    }
}

/// One visit of the collision pass keeps the size of the population and
/// every radius.
pub proof fn lemma_visited_shape(ps: Seq<Body>, i: int, j: int)
    requires
        0 <= i < ps.len(),
        0 <= j < ps.len(),
    ensures
        same_shape(visited(ps, i, j), ps),
{
}

/// One row of the collision pass keeps the size of the population and every
/// radius.
pub proof fn lemma_swept_shape(ps: Seq<Body>, i: int, k: int)
    requires
        0 <= i < ps.len(),
        0 <= k <= ps.len(),
    ensures
        same_shape(swept(ps, i, k), ps),
    decreases k,
{
    if k > 0 {
        lemma_swept_shape(ps, i, k - 1);
        lemma_visited_shape(swept(ps, i, k - 1), i, k - 1);
    }
}

/// The rows of the collision pass keep the size of the population and every
/// radius.
pub proof fn lemma_settled_shape(ps: Seq<Body>, k: int)
    requires
        0 <= k <= ps.len(),
    ensures
        same_shape(settled(ps, k), ps),
    decreases k,
{
    if k > 0 {
        lemma_settled_shape(ps, k - 1);
        lemma_swept_shape(settled(ps, k - 1), k - 1, ps.len() as int);
    }
}

/// The gravity pass keeps the size of the population and every radius.
pub proof fn lemma_gravitated_shape(ps: Seq<Body>)
    ensures
        same_shape(gravitated(ps), ps),
{
    assert forall|i: int| 0 <= i < ps.len() implies (#[trigger] gravitated(ps)[i]).radius
        == ps[i].radius by {
        lemma_attracted_frame(ps, i, ps.len() as int);
    }
}

/// A tick neither adds nor removes a body, and changes no radius: the
/// population is fixed, and a well-formed world stays well formed.
pub proof fn lemma_tick_keeps_shape(w: World, dt: int)
    ensures
        same_shape(w.ticked(dt).particles, w.particles),
        w.wf() ==> w.ticked(dt).wf(),
{
    let after_motion = moved(w.particles, dt);
    let after_press = if w.click_pending {
        pushed(after_motion, w.pointer)
    } else {
        after_motion
    };
    assert(same_shape(after_press, w.particles));
    lemma_gravitated_shape(after_press);
    let after_gravity = gravitated(after_press);
    lemma_settled_shape(after_gravity, after_gravity.len() as int);
    let last = separated(after_gravity);
    assert(same_shape(last, w.particles)) by {
        assert forall|i: int| 0 <= i < last.len() implies (#[trigger] last[i]).radius
            == w.particles[i].radius by {
            assert(last[i].radius == after_gravity[i].radius);
            assert(after_gravity[i].radius == after_press[i].radius);
            assert(after_press[i].radius == w.particles[i].radius);
        }
    }
    if w.wf() {
        assert forall|i: int| 0 <= i < last.len() implies (#[trigger] last[i]).wf() by {
            assert(last[i].radius == w.particles[i].radius);
            assert(w.particles[i].wf());
        }
    }
}

/// Reflection and integration keep every radius, so well-formed bodies stay
/// well formed.
pub proof fn lemma_moved_wf(ps: Seq<Body>, dt: int)
    requires
        forall|i: int| 0 <= i < ps.len() ==> (#[trigger] ps[i]).wf(),
    ensures
        forall|i: int| 0 <= i < ps.len() ==> (#[trigger] moved(ps, dt)[i]).wf(),
{
}

} // verus!
