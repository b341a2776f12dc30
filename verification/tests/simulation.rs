use nbody::body::{scale_pos, Body, Color, SimError, AU};
use nbody::sim::{key_transition, Simulation};
use nbody::vec2::Vec2;

fn mk(px: i128, py: i128, vx: i128, vy: i128, mass: i128, anchored: bool) -> Body {
    Body::new(
        Vec2::new(px, py),
        Vec2::new(vx, vy),
        mass,
        Color::new(200, 100, 50),
        String::from("body"),
        4,
        anchored,
        20,
        AU,
    )
    .unwrap()
}

#[test]
fn construction_rejects_nonpositive_mass() {
    for mass in [0i128, -5] {
        let r = Body::new(
            Vec2::new(0, 0),
            Vec2::new(0, 0),
            mass,
            Color::new(1, 2, 3),
            String::from("x"),
            1,
            false,
            20,
            AU,
        );
        assert_eq!(r.unwrap_err(), SimError::NonPositiveMass);
    }
}

#[test]
fn construction_rejects_empty_name() {
    let r = Body::new(
        Vec2::new(0, 0),
        Vec2::new(0, 0),
        5,
        Color::new(1, 2, 3),
        String::new(),
        1,
        false,
        20,
        AU,
    );
    assert_eq!(r.unwrap_err(), SimError::EmptyName);
}

#[test]
fn construction_at_origin_has_zero_display_position() {
    let b = Body::new(
        Vec2::new(0, 0),
        Vec2::new(0, 0),
        5,
        Color::new(1, 2, 3),
        String::from("still"),
        1,
        false,
        20,
        AU,
    )
    .unwrap();
    assert_eq!((b.scale_pos.x, b.scale_pos.y), (0, 0));
    assert_eq!(b.mass, 5);
    assert_eq!((b.color.r, b.color.g, b.color.b), (1, 2, 3));
    assert_eq!(b.name, "still");
}

#[test]
fn display_scaling_is_truncated_toward_zero() {
    let b = mk(AU, 0, 0, 0, 1, false);
    assert_eq!((b.scale_pos.x, b.scale_pos.y), (20, 0));
    let p = scale_pos(&b, 20, AU);
    assert_eq!((p.x, p.y), (20, 0));
    // 10^10 * 20 / AU is 1.33..., so 1; the negation truncates to -1, not -2.
    let c = mk(10_000_000_000, -10_000_000_000, 0, 0, 1, false);
    assert_eq!((c.scale_pos.x, c.scale_pos.y), (1, -1));
}

#[test]
fn separation_vector() {
    let b = mk(100, -200, 0, 0, 1, false);
    let d = b.get_distance(&Vec2::new(130, -160));
    assert_eq!((d.x, d.y), (30, 40));
}

#[test]
fn trajectory_sampling_interval() {
    // With the default sample interval of 10, a point is appended on the
    // first tick and then on every tenth tick, none in between.
    let bodies = vec![mk(0, 0, 0, 0, 1, true), mk(1_000, 0, 0, 0, 1, false)];
    let mut sim = Simulation::new(bodies, 1, 0, true);
    for t in 1u32..=30 {
        sim.tick();
        let expected = ((t + 9) / 10) as usize;
        assert_eq!(sim.trajectories[0].len(), expected, "at tick {}", t);
        assert_eq!(sim.trajectories[1].len(), expected, "at tick {}", t);
    }
}

#[test]
fn trajectory_points_are_display_positions() {
    let bodies = vec![mk(AU, 0, 0, 0, 1, true)];
    let mut sim = Simulation::new(bodies, 1, 0, true);
    sim.tick();
    assert_eq!(sim.trajectories[0].len(), 1);
    assert_eq!((sim.trajectories[0][0].x, sim.trajectories[0][0].y), (20, 0));
}

#[test]
fn tick_moves_only_unanchored_bodies() {
    let bodies = vec![mk(0, 0, 0, 0, 1_000, true), mk(1_000, 0, 0, 50, 1, false)];
    let mut sim = Simulation::new(bodies, 2, 0, false);
    sim.tick();
    assert_eq!((sim.bodies[0].pos.x, sim.bodies[0].pos.y), (0, 0));
    // g = 0: no force, pure inertial motion by dt * velocity.
    assert_eq!((sim.bodies[1].pos.x, sim.bodies[1].pos.y), (1_000, 100));
    assert_eq!((sim.bodies[1].vel.x, sim.bodies[1].vel.y), (0, 50));
}

#[test]
fn set_scale_rejects_nonpositive_and_rescales() {
    let bodies = vec![mk(AU, 0, 0, 0, 1, false)];
    let mut sim = Simulation::new(bodies, 1, 0, true);
    sim.tick(); // record one trajectory point
    assert_eq!(sim.trajectories[0].len(), 1);

    assert_eq!(sim.set_scale(0, AU).unwrap_err(), SimError::NonPositiveScale);
    assert_eq!(sim.set_scale(20, -1).unwrap_err(), SimError::NonPositiveScale);
    assert_eq!(sim.scale_num, 20);
    assert_eq!(sim.trajectories[0].len(), 1);

    sim.set_scale(40, AU).unwrap();
    assert_eq!(sim.scale_num, 40);
    assert_eq!(sim.scale_den, AU);
    assert_eq!((sim.bodies[0].scale_pos.x, sim.bodies[0].scale_pos.y), (40, 0));
    // Old samples are spatially meaningless under the new scale: cleared.
    assert_eq!(sim.trajectories[0].len(), 0);
}

#[test]
fn reset_clears_trajectories() {
    let bodies = vec![mk(0, 0, 0, 0, 1, true), mk(500, 0, 0, 0, 1, false)];
    let mut sim = Simulation::new(bodies, 1, 0, true);
    for _ in 0..12 {
        sim.tick();
    }
    assert!(sim.trajectories[0].len() > 0);
    sim.reset_trajectories();
    assert_eq!(sim.trajectories.len(), 2);
    assert_eq!(sim.trajectories[0].len(), 0);
    assert_eq!(sim.trajectories[1].len(), 0);
}

#[test]
fn runtime_controls() {
    let mut sim = Simulation::new(vec![mk(0, 0, 0, 0, 1, true)], 25_000, 0, true);
    assert!(sim.is_running);
    sim.toggle_running();
    assert!(!sim.is_running);
    sim.toggle_running();
    assert!(sim.is_running);

    assert!(sim.draw_trajectory);
    sim.toggle_trajectory();
    assert!(!sim.draw_trajectory);

    sim.set_dt(50_000);
    assert_eq!(sim.dt, 50_000);

    sim.pan_camera(3, -4);
    sim.pan_camera(1, 1);
    assert_eq!((sim.camera.x, sim.camera.y), (4, -3));
}

#[test]
fn key_edges() {
    assert_eq!(key_transition(false, true), (true, false));
    assert_eq!(key_transition(true, false), (false, true));
    assert_eq!(key_transition(true, true), (false, false));
    assert_eq!(key_transition(false, false), (false, false));
}
