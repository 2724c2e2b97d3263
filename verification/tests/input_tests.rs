use gravity_sim::input::{InputController, Key};

#[test]
fn press_sets_active_and_pressed_edge() {
    let mut c = InputController::new();
    c.press(Key::W);
    assert!(c.is_key_active(Key::W));
    assert!(c.is_key_pressed(Key::W));
    assert!(!c.is_key_released(Key::W));
}

#[test]
fn advance_clears_pressed_edge_but_keeps_active() {
    let mut c = InputController::new();
    c.press(Key::W);
    c.update();
    assert!(c.is_key_active(Key::W));
    assert!(!c.is_key_pressed(Key::W));
    assert!(!c.is_key_released(Key::W));
}

#[test]
fn release_sets_released_edge_before_next_advance() {
    let mut c = InputController::new();
    c.press(Key::W);
    c.update();
    c.release(Key::W);
    assert!(!c.is_key_active(Key::W));
    assert!(c.is_key_released(Key::W));
    assert!(!c.is_key_pressed(Key::W));
}

#[test]
fn released_edge_disappears_after_advance() {
    let mut c = InputController::new();
    c.press(Key::Q);
    c.update();
    c.release(Key::Q);
    c.update();
    assert!(!c.is_key_released(Key::Q));
    assert!(!c.is_key_active(Key::Q));
}

#[test]
fn press_is_idempotent_on_membership() {
    let mut c = InputController::new();
    c.press(Key::A);
    c.press(Key::A);
    assert!(c.is_key_active(Key::A));
    c.release(Key::A);
    assert!(!c.is_key_active(Key::A));
}

#[test]
fn release_without_press_is_harmless() {
    let mut c = InputController::new();
    c.release(Key::E);
    assert!(!c.is_key_active(Key::E));
    assert!(!c.is_key_released(Key::E));
}

#[test]
fn keys_are_tracked_independently() {
    let mut c = InputController::new();
    c.press(Key::W);
    c.press(Key::D);
    c.update();
    c.release(Key::W);
    assert!(!c.is_key_active(Key::W));
    assert!(c.is_key_active(Key::D));
    assert!(c.is_key_released(Key::W));
    assert!(!c.is_key_released(Key::D));
}

#[test]
fn one_of_many_keys_active() {
    let mut c = InputController::new();
    assert!(!c.is_one_of_key_active(vec![Key::W, Key::A, Key::S, Key::D]));
    c.press(Key::S);
    assert!(c.is_one_of_key_active(vec![Key::W, Key::A, Key::S, Key::D]));
    assert!(!c.is_one_of_key_active(vec![Key::Up, Key::Down]));
    assert!(!c.is_one_of_key_active(vec![]));
}

#[test]
fn default_controller_is_empty() {
    let c = InputController::default();
    assert!(!c.is_key_active(Key::Space));
    assert!(!c.is_key_pressed(Key::Space));
    assert!(!c.is_key_released(Key::Space));
}
