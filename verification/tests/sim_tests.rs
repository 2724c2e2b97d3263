use gravity_sim::body::Body;
use gravity_sim::simulation::spawn_body;
use gravity_sim::input::Key;
use gravity_sim::particle::Force;
use gravity_sim::physics::PhysicsContext;
use gravity_sim::simulation::Simulation;
use gravity_sim::vec2::Vec2;

fn two_body_context() -> PhysicsContext {
    let mut ctx = PhysicsContext::new();
    ctx.create_body(1, 11, Vec2::new(0, 0), 0, 500_000, 1_000_000);
    ctx.create_body(2, 22, Vec2::new(1_000_000, 0), 0, 500_000, 1_000_000);
    ctx
}

#[test]
fn create_body_records_handles_and_state() {
    let ctx = two_body_context();
    assert_eq!(ctx.bodies.len(), 2);
    assert_eq!(ctx.forces.len(), 2);
    assert_eq!(ctx.bodies[0].rigidbody_handle, 1);
    assert_eq!(ctx.bodies[0].collider_handle, 11);
    assert_eq!(ctx.bodies[1].position(), Vec2::new(1_000_000, 0));
    assert_eq!(ctx.bodies[1].mass(), 1_000_000);
    assert_eq!(ctx.forces[0], Force { x: 0, y: 0 });
}

#[test]
fn reset_forces_zeroes_and_is_idempotent() {
    // Clearing the stored forces leaves them zero; clearing again with no
    // application in between leaves them zero both times.
    let mut ctx = two_body_context();
    ctx.apply_force(0, Force { x: 123, y: -456 });
    assert_eq!(ctx.forces[0], Force { x: 123, y: -456 });
    ctx.reset_forces();
    assert_eq!(ctx.forces[0], Force { x: 0, y: 0 });
    assert_eq!(ctx.forces[1], Force { x: 0, y: 0 });
    ctx.reset_forces();
    assert_eq!(ctx.forces[0], Force { x: 0, y: 0 });
    assert_eq!(ctx.forces[1], Force { x: 0, y: 0 });
}

#[test]
fn apply_force_accumulates() {
    let mut ctx = two_body_context();
    ctx.apply_force(1, Force { x: 10, y: 20 });
    ctx.apply_force(1, Force { x: 1, y: 2 });
    assert_eq!(ctx.forces[1], Force { x: 11, y: 22 });
    assert_eq!(ctx.forces[0], Force { x: 0, y: 0 });
}

#[test]
fn step_records_the_gravitational_field() {
    let mut ctx = two_body_context();
    // A stale force from an earlier tick must not leak into the new field.
    ctx.apply_force(0, Force { x: 999_999, y: 999_999 });
    let forces = ctx.step();
    assert_eq!(forces.len(), 2);
    assert_eq!(forces[0], Force { x: 2_669_720, y: 0 });
    assert_eq!(forces[1], Force { x: -2_669_720, y: 0 });
    assert_eq!(ctx.forces[0], forces[0]);
    assert_eq!(ctx.forces[1], forces[1]);
}

#[test]
fn sync_body_updates_state_but_not_handles() {
    let mut ctx = two_body_context();
    ctx.sync_body(0, Vec2::new(7_000, -8_000), 123_456, 600_000, 2_000_000);
    assert_eq!(ctx.bodies[0].position(), Vec2::new(7_000, -8_000));
    assert_eq!(ctx.bodies[0].rotation(), 123_456);
    assert_eq!(ctx.bodies[0].radius(), 600_000);
    assert_eq!(ctx.bodies[0].mass(), 2_000_000);
    assert_eq!(ctx.bodies[0].rigidbody_handle, 1);
    assert_eq!(ctx.bodies[0].collider_handle, 11);
    assert_eq!(ctx.bodies[1].position(), Vec2::new(1_000_000, 0));
}

#[test]
fn body_mu_scales_mass_by_gravity() {
    let mut body = Body::new(3, 33);
    body.sync_to_rigidbody(Vec2::new(0, 0), 0, 500_000, 1_000_000);
    assert_eq!(body.mu(), 2_669_720);
    let p = body.as_particle();
    assert_eq!(p.mass, 1_000_000);
    assert_eq!(p.position, Vec2::new(0, 0));
}

#[test]
fn update_runs_the_stepper_when_not_paused() {
    let mut sim = Simulation::new();
    sim.physics_context.create_body(1, 11, Vec2::new(0, 0), 0, 500_000, 1_000_000);
    sim.physics_context.create_body(2, 22, Vec2::new(1_000_000, 0), 0, 500_000, 1_000_000);
    let r = sim.update(0);
    let forces = r.expect("not paused, so the stepper must run");
    assert_eq!(forces.len(), 2);
    assert_eq!(forces[0], Force { x: 2_669_720, y: 0 });
    assert_eq!(sim.state.last_frame, Some(0));
}

#[test]
fn space_edge_toggles_pause() {
    let mut sim = Simulation::new();
    sim.state.input_controller.press(Key::Space);
    // The press edge pauses: no step.
    assert!(sim.update(0).is_none());
    // Space still held on the next tick is no new edge: still paused.
    assert!(sim.update(10).is_none());
    sim.state.input_controller.release(Key::Space);
    assert!(sim.update(20).is_none());
    // A fresh press edge unpauses.
    sim.state.input_controller.press(Key::Space);
    assert!(sim.update(30).is_some());
}

#[test]
fn update_clamps_and_tracks_frame_time() {
    let mut sim = Simulation::new();
    sim.state.pan_velocity.y = 1_000_000;
    // First tick: no previous frame, so dt is zero and the pan stays put.
    sim.update(5_000);
    assert_eq!(sim.state.last_frame, Some(5_000));
    assert_eq!(sim.state.pan.y, 0);
    // 100 ms tick: the velocity, damped once per tick, integrates over
    // 0.1 s: 1.0 -> 0.95 -> 0.9025 units/s, and 0.9025 * 0.1 = 0.09025.
    sim.update(5_100);
    assert_eq!(sim.state.last_frame, Some(5_100));
    assert_eq!(sim.state.pan.y, 90_250);
    // A clock step backward counts as no elapsed time.
    let pan_before = sim.state.pan.y;
    sim.update(4_000);
    assert_eq!(sim.state.pan.y, pan_before);
}

#[test]
fn tick_uses_the_real_clock() {
    let mut sim = Simulation::new();
    let (ms, r) = sim.tick();
    assert!(r.is_some());
    assert_eq!(sim.state.last_frame, Some(ms));
    let (ms2, _) = sim.tick();
    assert!(ms2 >= ms);
}

#[test]
fn fresh_simulation_defaults() {
    let sim = Simulation::new();
    assert!(!sim.state.paused);
    assert!(!sim.state.wireframe);
    assert_eq!(sim.state.zoom, 100_000_000);
    assert_eq!(sim.state.rotation, 0);
    assert_eq!(sim.physics_context.bodies.len(), 0);
    assert_eq!(sim.state.last_frame, None);
}

#[test]
fn spawn_with_zero_draws_is_at_the_origin() {
    let s = spawn_body(0, 0, 0, 0, 0, 0, 0);
    assert_eq!(s.position, Vec2::new(0, 0));
    assert_eq!(s.rotation, 0);
    assert_eq!(s.radius, 0);
    assert_eq!(s.linvel, Vec2::new(0, 0));
    assert_eq!(s.angvel, 0);
}

#[test]
fn spawn_with_half_draws_matches_the_formulas() {
    // Distance draw 0.25: sqrt gives 0.5, so the body sits at
    // 75 * 0.5 - radius 0.5 = 37 units along the zero angle.
    let s = spawn_body(500_000, 500_000, 250_000, 0, 0, 500_000, 999_999);
    assert_eq!(s.position, Vec2::new(37_000_000, 0));
    assert_eq!(s.rotation, 3_141_592);
    assert_eq!(s.radius, 500_000);
    assert_eq!(s.linvel, Vec2::new(1_500_000, 0));
    assert_eq!(s.angvel, 1_256_635);
}

#[test]
fn spawn_at_quarter_turn_points_up() {
    // Angle draw 0.25 is exactly a quarter turn: position and velocity
    // land on the +y axis, at the far edge of the world disc.
    let s = spawn_body(0, 0, 999_999, 250_000, 250_000, 999_999, 0);
    assert_eq!(s.position, Vec2::new(0, 74_999_925));
    assert_eq!(s.linvel, Vec2::new(0, 2_999_997));
}

#[test]
fn spawn_stays_within_the_body_limits() {
    let mut u: i64 = 1;
    for _ in 0..200 {
        u = (u * 48_271) % 999_983;
        let s = spawn_body(
            u,
            (u * 7) % 1_000_000,
            (u * 11) % 1_000_000,
            (u * 13) % 1_000_000,
            (u * 17) % 1_000_000,
            (u * 19) % 1_000_000,
            (u * 23) % 1_000_000,
        );
        assert!(s.position.x.abs() <= 75_000_000);
        assert!(s.position.y.abs() <= 75_000_000);
        assert!(0 <= s.rotation && s.rotation < 6_283_185);
        assert!(0 <= s.radius && s.radius <= 1_000_000);
        assert!(s.linvel.x.abs() <= 3_000_000);
        assert!(s.linvel.y.abs() <= 3_000_000);
        assert!(0 <= s.angvel && s.angvel <= 1_256_637);
    }
}
