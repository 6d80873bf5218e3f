use particles::particle::{Particle, WINDOW_HEIGHT, WINDOW_WIDTH};
use particles::scalar::{Scalar, SCALE};
use particles::simulation::App;
use particles::spawn::{RADIUS_MIN, RADIUS_SPAN, SPEED_MAX};
use particles::vector::Vector;

fn frac(raw: i64) -> Scalar {
    Scalar { raw }
}

fn point(x: i64, y: i64) -> Vector {
    Vector { x: Scalar { raw: x }, y: Scalar { raw: y } }
}

#[test]
fn zero_fractions_select_the_low_end_of_every_range() {
    let p = Particle::place(frac(0), frac(0), frac(0), frac(0), frac(0));
    assert_eq!(p.position, point(0, 0));
    assert_eq!(p.velocity, point(-50_000_000_000, -50_000_000_000));
    assert_eq!(p.acceleration, point(0, 0));
    assert_eq!(p.radius, Scalar::from_int(5));
}

#[test]
fn half_fractions_select_the_middle_of_every_range() {
    let half = frac(500_000_000);
    let p = Particle::place(half, half, half, half, half);
    assert_eq!(p.position, point(900_000_000_000, 500_000_000_000));
    assert_eq!(p.velocity, point(0, 0));
    assert_eq!(p.radius, Scalar::from_int(10));
}

#[test]
fn the_largest_fraction_stays_below_the_high_end_of_every_range() {
    let top = frac(SCALE - 1);
    let p = Particle::place(top, top, top, top, top);
    assert_eq!(p.position, point(1_799_999_998_200, 999_999_999_000));
    assert_eq!(p.velocity, point(49_999_999_900, 49_999_999_900));
    assert_eq!(p.radius, frac(14_999_999_990));
}

#[test]
fn each_fraction_selects_its_own_quantity() {
    let p = Particle::place(
        frac(250_000_000),
        frac(750_000_000),
        frac(100_000_000),
        frac(900_000_000),
        frac(123_456_789),
    );
    assert_eq!(p.position, point(450_000_000_000, 750_000_000_000));
    assert_eq!(p.velocity, point(-40_000_000_000, 40_000_000_000));
    assert_eq!(p.radius, frac(6_234_567_890));
}

#[test]
fn a_random_simulation_has_the_count_asked_for() {
    assert_eq!(App::random(99).particles.len(), 99);
    assert_eq!(App::random(1).particles.len(), 1);
    assert!(App::random(0).particles.is_empty());
}

#[test]
fn a_random_simulation_starts_with_no_press_and_the_pointer_at_the_origin() {
    let app = App::random(5);
    assert!(!app.mouse_click);
    assert_eq!(app.mouse_position, point(0, 0));
}

#[test]
fn random_particles_lie_within_the_ranges() {
    let app = App::random(500);
    for p in app.particles.iter() {
        assert!(0 <= p.position.x.raw && p.position.x.raw < WINDOW_WIDTH);
        assert!(0 <= p.position.y.raw && p.position.y.raw < WINDOW_HEIGHT);
        assert!(-SPEED_MAX <= p.velocity.x.raw && p.velocity.x.raw < SPEED_MAX);
        assert!(-SPEED_MAX <= p.velocity.y.raw && p.velocity.y.raw < SPEED_MAX);
        assert_eq!(p.acceleration, point(0, 0));
        assert!(RADIUS_MIN <= p.radius.raw && p.radius.raw < RADIUS_MIN + RADIUS_SPAN);
        assert!(p.is_wf());
    }
    assert!(app.is_wf());
}

#[test]
fn random_particles_are_not_all_alike() {
    let app = App::random(200);
    let first = app.particles[0];
    assert!(app.particles.iter().any(|p| p.position != first.position));
    assert!(app.particles.iter().any(|p| p.radius != first.radius));
}

#[test]
fn a_random_simulation_can_be_updated() {
    let mut app = App::random(20);
    for _ in 0..5 {
        app.update(Scalar { raw: 8_333_333 });
    }
    assert_eq!(app.particles.len(), 20);
    assert!(app.is_wf());
}
