use gravity_sim::input::Key;
use gravity_sim::simulation::Simulation;
use gravity_sim::state::{DEFAULT_ZOOM_FX, InputEvent, TextureKey};

#[test]
fn pan_speed_is_zoom_compensated() {
    // Zoom 2.0, pan speed 400, one directional key held, rotation 0, one
    // tick of 0.1 s: velocity is 400 / 2 = 200 units per second and the pan
    // moves 200 * 0.1 = 20 units within the tick.
    let mut sim = Simulation::new();
    sim.state.zoom = 2_000_000;
    sim.state.input_controller.press(Key::W);
    sim.update_camera(100_000);
    assert_eq!(sim.state.pan_velocity.x, 0);
    assert_eq!(sim.state.pan_velocity.y, 200_000_000);
    assert_eq!(sim.state.pan.x, 0);
    assert_eq!(sim.state.pan.y, 20_000_000);
}

#[test]
fn zoom_grows_exponentially() {
    // Zoom 100, zoom speed 5, zoom-in held for one second: 100 + 100*5 = 600.
    let mut sim = Simulation::new();
    sim.state.zoom = 100_000_000;
    sim.state.input_controller.press(Key::Up);
    sim.update_camera(1_000_000);
    assert_eq!(sim.state.zoom, 600_000_000);
}

#[test]
fn zoom_out_shrinks_and_stays_positive() {
    let mut sim = Simulation::new();
    sim.state.zoom = 100_000_000;
    sim.state.input_controller.press(Key::Down);
    sim.update_camera(100_000);
    // 100 - 100*5*0.1 = 50.
    assert_eq!(sim.state.zoom, 50_000_000);
    // A huge tick would drive the zoom negative; it clamps positive instead.
    sim.update_camera(1_000_000);
    sim.update_camera(1_000_000);
    assert!(sim.state.zoom >= 1);
}

#[test]
fn rotation_accumulates_and_wraps() {
    let mut sim = Simulation::new();
    sim.state.input_controller.press(Key::Left);
    sim.update_camera(1_000_000);
    // 5 radians per second, one second.
    assert_eq!(sim.state.rotation, 5_000_000);
    sim.update_camera(1_000_000);
    // 10 radians wraps past a full turn of ~6.283185.
    assert_eq!(sim.state.rotation, 10_000_000 - 6_283_185);
}

#[test]
fn rotation_keys_cancel() {
    let mut sim = Simulation::new();
    sim.state.input_controller.press(Key::Left);
    sim.state.input_controller.press(Key::Right);
    sim.update_camera(1_000_000);
    assert_eq!(sim.state.rotation, 0);
}

#[test]
fn diagonal_pan_uses_normalized_direction() {
    let mut sim = Simulation::new();
    sim.state.zoom = 1_000_000;
    sim.state.input_controller.press(Key::W);
    sim.state.input_controller.press(Key::D);
    sim.update_camera(100_000);
    // Velocity 400 / sqrt(2) in each component: 400 * 0.707107.
    assert_eq!(sim.state.pan_velocity.x, 282_842_800);
    assert_eq!(sim.state.pan_velocity.y, 282_842_800);
}

#[test]
fn opposing_pan_keys_cancel() {
    let mut sim = Simulation::new();
    sim.state.input_controller.press(Key::W);
    sim.state.input_controller.press(Key::S);
    sim.update_camera(100_000);
    assert_eq!(sim.state.pan_velocity.x, 0);
    assert_eq!(sim.state.pan_velocity.y, 0);
}

#[test]
fn velocity_decays_when_no_key_is_held() {
    let mut sim = Simulation::new();
    sim.state.pan_velocity.x = 1_000_000;
    sim.state.pan_velocity.y = -2_000_000;
    sim.update_camera(100_000);
    // Five percent removed per tick, rounding toward zero.
    assert_eq!(sim.state.pan_velocity.x, 950_000);
    assert_eq!(sim.state.pan_velocity.y, -1_900_000);
}

#[test]
fn wireframe_toggles_on_release_edge() {
    let mut sim = Simulation::new();
    assert!(!sim.state.wireframe);
    sim.state.input_controller.press(Key::Q);
    sim.update_camera(0);
    // A press is no release edge, and neither is holding the key.
    assert!(!sim.state.wireframe);
    sim.state.input_controller.update();
    sim.update_camera(0);
    assert!(!sim.state.wireframe);
    // The release edge flips the flag, exactly once.
    sim.state.input_controller.release(Key::Q);
    sim.update_camera(0);
    assert!(sim.state.wireframe);
    sim.state.input_controller.update();
    sim.update_camera(0);
    assert!(sim.state.wireframe);
}

#[test]
fn velocity_decay_reaches_exact_zero() {
    // Below twenty micro-units per second the five-percent cut truncates
    // to nothing; damping still removes at least one micro-unit, so the
    // velocity reaches exactly zero instead of stalling.
    let mut sim = Simulation::new();
    sim.state.pan_velocity.x = 19;
    sim.state.pan_velocity.y = -3;
    for _ in 0..25 {
        sim.update_camera(100_000);
    }
    assert_eq!(sim.state.pan_velocity.x, 0);
    assert_eq!(sim.state.pan_velocity.y, 0);
}

#[test]
fn texture_cycles_on_release_edge() {
    let mut sim = Simulation::new();
    assert_eq!(sim.state.texture_key, TextureKey::Moon);
    assert!(!sim.state.rave);
    sim.state.input_controller.press(Key::E);
    sim.update_camera(0);
    // Press alone is no release edge.
    assert_eq!(sim.state.texture_key, TextureKey::Moon);
    sim.state.input_controller.update();
    sim.state.input_controller.release(Key::E);
    sim.update_camera(0);
    assert_eq!(sim.state.texture_key, TextureKey::Rust);
    assert!(sim.state.rave);
    // Another full press-release cycle flips to the other texture.
    sim.state.input_controller.update();
    sim.state.input_controller.press(Key::E);
    sim.state.input_controller.update();
    sim.state.input_controller.release(Key::E);
    sim.update_camera(0);
    assert_eq!(sim.state.texture_key, TextureKey::Disco);
}

#[test]
fn handle_input_routes_events() {
    let mut sim = Simulation::new();
    sim.state.handle_input(&InputEvent::KeyPressed(Key::A));
    assert!(sim.state.input_controller.is_key_active(Key::A));
    sim.state.handle_input(&InputEvent::KeyReleased(Key::A));
    assert!(!sim.state.input_controller.is_key_active(Key::A));
    sim.state.handle_input(&InputEvent::CursorMoved(12_000_000, 34_000_000));
    assert_eq!(sim.state.mouse_pos.x, 12_000_000);
    assert_eq!(sim.state.mouse_pos.y, 34_000_000);
    sim.state.handle_input(&InputEvent::Resized(800, 600));
    assert_eq!(sim.state.view_size, (800, 600));
    assert_eq!(sim.state.zoom, DEFAULT_ZOOM_FX);
}
