use particles::interaction::{attraction, collide, exchange};
use particles::particle::Particle;
use particles::scalar::Scalar;
use particles::vector::Vector;

fn num(n: i32) -> Scalar {
    Scalar::from_int(n)
}

fn xy(x: i32, y: i32) -> Vector {
    Vector { x: num(x), y: num(y) }
}

fn raw_xy(x: i64, y: i64) -> Vector {
    Vector { x: Scalar { raw: x }, y: Scalar { raw: y } }
}

fn ball(position: Vector, velocity: Vector, radius: i32) -> Particle {
    Particle { position, velocity, acceleration: xy(0, 0), radius: num(radius) }
}

#[test]
fn attraction_is_the_product_of_the_masses_over_the_squared_distance() {
    let a = ball(xy(100, 100), xy(0, 0), 10);
    let b = ball(xy(200, 100), xy(0, 0), 10);
    // 628.3185307 * 628.3185307 / 100^2, toward b
    assert_eq!(attraction(&a, &b), raw_xy(39_478_417_602, 0));
}

#[test]
fn attraction_points_along_the_line_of_centres() {
    let g = ball(xy(100, 100), xy(0, 0), 10);
    let h = ball(xy(130, 140), xy(0, 0), 5);
    // distance 50, direction (0.6, 0.8)
    assert_eq!(attraction(&g, &h), raw_xy(23_687_050_561, 31_582_734_081));
}

#[test]
fn attraction_of_two_bodies_is_equal_and_opposite() {
    let a = ball(xy(100, 100), xy(0, 0), 10);
    let b = ball(xy(200, 100), xy(0, 0), 10);
    assert_eq!(attraction(&b, &a), raw_xy(-39_478_417_602, 0));
    let g = ball(xy(100, 100), xy(0, 0), 10);
    let h = ball(xy(130, 140), xy(0, 0), 5);
    assert_eq!(attraction(&h, &g), raw_xy(-23_687_050_561, -31_582_734_081));
}

#[test]
fn equal_masses_are_accelerated_equally_and_oppositely() {
    let mut a = ball(xy(100, 100), xy(0, 0), 10);
    let mut b = ball(xy(200, 100), xy(0, 0), 10);
    let on_a = attraction(&a, &b);
    let on_b = attraction(&b, &a);
    a.apply_force(&on_a);
    b.apply_force(&on_b);
    assert_eq!(a.acceleration, raw_xy(62_831_853, 0));
    assert_eq!(b.acceleration, raw_xy(-62_831_853, 0));
    assert_eq!(a.acceleration.mag(), b.acceleration.mag());
}

#[test]
fn unequal_masses_are_accelerated_in_inverse_proportion() {
    let mut g = ball(xy(100, 100), xy(0, 0), 10);
    let mut h = ball(xy(130, 140), xy(0, 0), 5);
    let on_g = attraction(&g, &h);
    let on_h = attraction(&h, &g);
    g.apply_force(&on_g);
    h.apply_force(&on_h);
    assert_eq!(g.acceleration, raw_xy(37_699_111, 50_265_482));
    assert_eq!(h.acceleration, raw_xy(-150_796_447, -201_061_929));
}

#[test]
fn coincident_centres_exert_no_force() {
    let a = ball(xy(100, 100), xy(0, 0), 10);
    let b = ball(xy(100, 100), xy(0, 0), 5);
    assert_eq!(attraction(&a, &b), xy(0, 0));
    assert_eq!(attraction(&b, &a), xy(0, 0));
}

#[test]
fn exchange_between_equal_masses_hands_over_the_other_velocity() {
    let m = Scalar { raw: 628_318_530_700 };
    assert_eq!(exchange(m, &xy(4, -2), m, &xy(-6, 8)), xy(-6, 8));
    assert_eq!(exchange(m, &xy(-6, 8), m, &xy(4, -2)), xy(4, -2));
}

#[test]
fn exchange_between_unequal_masses_follows_the_elastic_formula() {
    let heavy = Scalar { raw: 628_318_530_700 };
    let light = Scalar { raw: 157_079_632_675 };
    // (4, -2) * 0.6 + (-6, 8) * 0.4
    assert_eq!(exchange(heavy, &xy(4, -2), light, &xy(-6, 8)), xy(0, 2));
    // (-6, 8) * -0.6 + (4, -2) * 1.6
    assert_eq!(exchange(light, &xy(-6, 8), heavy, &xy(4, -2)), xy(10, -8));
}

#[test]
fn overlapping_equal_masses_swap_velocities_scaled_by_the_restitution() {
    let c = ball(xy(100, 100), xy(4, -2), 10);
    let d = ball(xy(110, 100), xy(-6, 8), 10);
    let (first, second) = collide(c, d);
    assert_eq!(first.velocity, raw_xy(-5_940_000_000, 7_920_000_000));
    assert_eq!(second.velocity, raw_xy(3_960_000_000, -1_980_000_000));
    assert_eq!(first.velocity, d.velocity.mult(Scalar { raw: 990_000_000 }));
    assert_eq!(second.velocity, c.velocity.mult(Scalar { raw: 990_000_000 }));
}

#[test]
fn an_overlap_is_split_51_to_49_along_the_line_of_centres() {
    let c = ball(xy(100, 100), xy(4, -2), 10);
    let d = ball(xy(110, 100), xy(-6, 8), 10);
    let (first, second) = collide(c, d);
    // the overlap is 10: the first moves back by 5.1, the second on by 4.9
    assert_eq!(first.position, raw_xy(94_900_000_000, 100_000_000_000));
    assert_eq!(second.position, raw_xy(114_900_000_000, 100_000_000_000));
    assert_eq!(first.radius, num(10));
    assert_eq!(second.radius, num(10));
    assert_eq!(first.acceleration, xy(0, 0));
    assert_eq!(second.acceleration, xy(0, 0));
}

#[test]
fn overlapping_unequal_masses_are_resolved_along_a_slanted_line() {
    let e = ball(xy(100, 100), xy(4, -2), 10);
    let f = ball(xy(103, 104), xy(-6, 8), 5);
    let (first, second) = collide(e, f);
    assert_eq!(first.position, raw_xy(96_940_000_000, 95_920_000_000));
    assert_eq!(first.velocity, raw_xy(0, 1_980_000_000));
    assert_eq!(second.position, raw_xy(105_940_000_000, 107_920_000_000));
    assert_eq!(second.velocity, raw_xy(9_900_000_000, -7_920_000_000));
}

#[test]
fn bodies_that_just_touch_count_as_overlapping() {
    let a = ball(xy(100, 100), xy(4, -2), 10);
    let b = ball(xy(120, 100), xy(-6, 8), 10);
    let (first, second) = collide(a, b);
    assert_eq!(first.position, xy(100, 100));
    assert_eq!(second.position, xy(120, 100));
    assert_eq!(first.velocity, raw_xy(-5_940_000_000, 7_920_000_000));
    assert_eq!(second.velocity, raw_xy(3_960_000_000, -1_980_000_000));
}

#[test]
fn bodies_apart_are_left_alone() {
    let a = ball(xy(100, 100), xy(4, -2), 10);
    let b = ball(xy(121, 100), xy(-6, 8), 10);
    let (first, second) = collide(a, b);
    assert_eq!(first, a);
    assert_eq!(second, b);
}

#[test]
fn coincident_bodies_exchange_velocities_and_stay_in_place() {
    let a = ball(xy(100, 100), xy(4, -2), 10);
    let b = ball(xy(100, 100), xy(-6, 8), 10);
    let (first, second) = collide(a, b);
    assert_eq!(first.position, xy(100, 100));
    assert_eq!(second.position, xy(100, 100));
    assert_eq!(first.velocity, raw_xy(-5_940_000_000, 7_920_000_000));
    assert_eq!(second.velocity, raw_xy(3_960_000_000, -1_980_000_000));
}
