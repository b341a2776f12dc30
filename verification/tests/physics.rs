use nbody::body::{Body, Color};
use nbody::vec2::Vec2;
use nbody::forces::calculate_forces;
use nbody::integrator::{calculate_accels, move_all_bodies};

fn mk(px: i128, py: i128, vx: i128, vy: i128, mass: i128, anchored: bool) -> Body {
    Body::new(
        Vec2::new(px, py),
        Vec2::new(vx, vy),
        mass,
        Color::new(255, 255, 255),
        String::from("body"),
        4,
        anchored,
        20,
        nbody::body::AU,
    )
    .unwrap()
}

#[test]
fn force_pairs_antisymmetric() {
    let a = mk(0, 0, 0, 0, 1_000_000, false);
    let b = mk(300, 400, 0, 0, 1_000_000, false);
    let g: i128 = 1;
    let fab = a.get_force(&b, g);
    let fba = b.get_force(&a, g);
    assert_eq!(fab.x, -fba.x);
    assert_eq!(fab.y, -fba.y);
    // magnitude num / r^2 = 10^12 / 250_000 = 4_000_000, direction (3/5, 4/5)
    assert_eq!(fab.x, 2_400_000);
    assert_eq!(fab.y, 3_200_000);
}

#[test]
fn coincident_bodies_zero_force() {
    let a = mk(5_000, -7_000, 1, 2, 10, false);
    let b = mk(5_000, -7_000, -3, 4, 20, false);
    let fab = a.get_force(&b, 1_000_000);
    let fba = b.get_force(&a, 1_000_000);
    assert_eq!((fab.x, fab.y), (0, 0));
    assert_eq!((fba.x, fba.y), (0, 0));
    let forces = calculate_forces(&vec![a, b], 1_000_000);
    assert_eq!((forces[0].x, forces[0].y), (0, 0));
    assert_eq!((forces[1].x, forces[1].y), (0, 0));
}

#[test]
fn forces_match_pairwise_sums() {
    let bodies = vec![
        mk(0, 0, 0, 0, 50_000, false),
        mk(10_000, 0, 0, 0, 60_000, false),
        mk(0, -20_000, 0, 0, 70_000, false),
    ];
    let g: i128 = 1_000_000;
    let forces = calculate_forces(&bodies, g);
    for i in 0..bodies.len() {
        let mut sx: i128 = 0;
        let mut sy: i128 = 0;
        for j in 0..bodies.len() {
            if i != j {
                let f = bodies[i].get_force(&bodies[j], g);
                sx += f.x;
                sy += f.y;
            }
        }
        assert_eq!(forces[i].x, sx);
        assert_eq!(forces[i].y, sy);
    }
}

#[test]
fn accelerations_divide_force_by_mass() {
    let bodies = vec![mk(0, 0, 0, 0, 4, false), mk(1_000, 0, 0, 0, 12, false)];
    let forces = vec![Vec2::new(9, -9), Vec2::new(25, -25)];
    let accels = calculate_accels(&bodies, &forces);
    assert_eq!((accels[0].x, accels[0].y), (2, -2)); // 9 / 4 truncated toward zero
    assert_eq!((accels[1].x, accels[1].y), (2, -2)); // 25 / 12 truncated toward zero
}

#[test]
fn single_step_two_body() {
    // Anchor of dominant mass at the origin, second body one distance unit
    // of 10^10 away with tangential velocity; one step of dt = 1.
    let sun = mk(0, 0, 0, 0, 100_000_000_000_000_000_000, true); // 10^20
    let planet = mk(10_000_000_000, 0, 0, 100_000, 1, false);
    let mut bodies = vec![sun, planet];
    move_all_bodies(&mut bodies, 1, 1, 20, nbody::body::AU);
    // Anchor untouched.
    assert_eq!((bodies[0].pos.x, bodies[0].pos.y), (0, 0));
    assert_eq!((bodies[0].vel.x, bodies[0].vel.y), (0, 0));
    // Acceleration toward the anchor: g * m_sun / r^2 = 10^20 / 10^20 = 1.
    // Velocity first: (0 - 1, 100000); then position with the new velocity.
    assert_eq!((bodies[1].vel.x, bodies[1].vel.y), (-1, 100_000));
    assert_eq!((bodies[1].pos.x, bodies[1].pos.y), (9_999_999_999, 100_000));
}

#[test]
fn momentum_conserved_without_anchor() {
    // Unit masses make the force-to-acceleration division exact, so the
    // total momentum is conserved exactly over many ticks.
    let mut bodies = vec![
        mk(0, 0, 3, 4, 1, false),
        mk(1_000, 0, -5, 2, 1, false),
        mk(0, 2_000, 1, -6, 1, false),
    ];
    let g: i128 = 1_000_000;
    let p0: (i128, i128) = bodies
        .iter()
        .fold((0, 0), |p, b| (p.0 + b.mass * b.vel.x, p.1 + b.mass * b.vel.y));
    for _ in 0..50 {
        move_all_bodies(&mut bodies, 7, g, 20, nbody::body::AU);
        let p: (i128, i128) = bodies
            .iter()
            .fold((0, 0), |p, b| (p.0 + b.mass * b.vel.x, p.1 + b.mass * b.vel.y));
        assert_eq!(p, p0);
    }
}

#[test]
fn orbit_stays_in_band() {
    // Circular-orbit initial conditions: r = 10^10, g * M = 10^24, so the
    // orbital speed is sqrt(gM / r) = 10^7. Over a full revolution the
    // distance to the anchor stays within a narrow band of the initial
    // radius under the leapfrog scheme.
    let sun = mk(0, 0, 0, 0, 1_000_000_000_000_000_000_000_000, true); // 10^24
    let planet = mk(10_000_000_000, 0, 0, 10_000_000, 1, false);
    let mut bodies = vec![sun, planet];
    let r0 = 1.0e10_f64;
    for t in 0..6300 {
        move_all_bodies(&mut bodies, 1, 1, 20, nbody::body::AU);
        if t % 100 == 0 {
            let x = bodies[1].pos.x as f64;
            let y = bodies[1].pos.y as f64;
            let r = (x * x + y * y).sqrt();
            assert!((r - r0).abs() < 0.005 * r0, "radius drifted to {} at tick {}", r, t);
        }
    }
}

#[test]
fn runaway_positions_are_not_an_error() {
    // A fast unbound body simply escapes; no clamping, no failure.
    let anchor = mk(0, 0, 0, 0, 1_000, true);
    let rogue = mk(1_000, 0, 500_000, 0, 1, false);
    let mut bodies = vec![anchor, rogue];
    for _ in 0..100 {
        move_all_bodies(&mut bodies, 1, 1, 20, nbody::body::AU);
    }
    assert!(bodies[1].pos.x > 1_000_000);
}
