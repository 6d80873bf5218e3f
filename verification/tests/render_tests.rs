use particles::particle::Particle;
use particles::render::{color_of, Color};
use particles::scalar::Scalar;
use particles::simulation::App;
use particles::vector::Vector;

fn val(n: i32) -> Scalar {
    Scalar::from_int(n)
}

fn moving(vx: i32, vy: i32) -> Particle {
    Particle {
        position: Vector { x: val(10), y: val(20) },
        velocity: Vector { x: val(vx), y: val(vy) },
        acceleration: Vector { x: val(0), y: val(0) },
        radius: val(5),
    }
}

#[test]
fn a_particle_at_rest_is_blue() {
    assert_eq!(
        color_of(&moving(0, 0)),
        Color { red: val(0), green: val(0), blue: val(1), alpha: val(1) }
    );
}

#[test]
fn a_particle_at_half_the_full_speed_is_half_red() {
    let half = Scalar { raw: 500_000_000 };
    assert_eq!(
        color_of(&moving(75, 0)),
        Color { red: half, green: val(0), blue: half, alpha: val(1) }
    );
}

#[test]
fn the_colour_goes_by_the_speed_and_not_its_direction() {
    let c = color_of(&moving(30, 40));
    assert_eq!(c.red, Scalar { raw: 333_333_333 });
    assert_eq!(c.blue, Scalar { raw: 666_666_667 });
    assert_eq!(color_of(&moving(-30, -40)), c);
}

#[test]
fn a_particle_beyond_the_full_speed_is_red() {
    let red = Color { red: val(1), green: val(0), blue: val(0), alpha: val(1) };
    assert_eq!(color_of(&moving(150, 0)), red);
    assert_eq!(color_of(&moving(300, 0)), red);
    assert_eq!(color_of(&moving(-90, 120)), red);
}

#[test]
fn render_yields_one_disc_for_each_particle_in_order() {
    let mut second = moving(75, 0);
    second.position = Vector { x: val(30), y: val(40) };
    second.radius = val(9);
    let app = App::new(vec![moving(0, 0), second]);
    let discs = app.render();
    assert_eq!(discs.len(), 2);
    assert_eq!(discs[0].x, val(10));
    assert_eq!(discs[0].y, val(20));
    assert_eq!(discs[0].radius, val(5));
    assert_eq!(discs[0].color, color_of(&moving(0, 0)));
    assert_eq!(discs[1].x, val(30));
    assert_eq!(discs[1].y, val(40));
    assert_eq!(discs[1].radius, val(9));
    assert_eq!(discs[1].color.red, Scalar { raw: 500_000_000 });
    assert!(App::new(Vec::new()).render().is_empty());
}
