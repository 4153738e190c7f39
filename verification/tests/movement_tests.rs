use engine::event_system::movement::{process_keyboard_state, Direction, MovementKey, PressedKeys};

fn keys(w: bool, a: bool, s: bool, d: bool) -> PressedKeys {
    PressedKeys { w, a, s, d }
}

#[test]
fn single_keys() {
    assert_eq!(keys(true, false, false, false).calculate_direction(), "forward");
    assert_eq!(keys(false, false, true, false).calculate_direction(), "back");
    assert_eq!(keys(false, true, false, false).calculate_direction(), "left");
    assert_eq!(keys(false, false, false, true).calculate_direction(), "right");
    assert_eq!(PressedKeys::new().calculate_direction(), "idle");
}

#[test]
fn diagonals() {
    assert_eq!(keys(true, true, false, false).calculate_direction(), "forward-left");
    assert_eq!(keys(true, false, false, true).calculate_direction(), "forward-right");
    assert_eq!(keys(false, true, true, false).calculate_direction(), "back-left");
    assert_eq!(keys(false, false, true, true).calculate_direction(), "back-right");
    assert_eq!(keys(false, true, true, false).calculate_wasd_state(), "backward-left");
    assert_eq!(keys(false, false, true, true).calculate_movement_direction(), "backward-right");
}

#[test]
fn opposite_keys_cancel() {
    assert_eq!(keys(true, false, true, false).calculate_direction(), "idle");
    assert_eq!(keys(false, true, false, true).calculate_direction(), "idle");
    assert_eq!(keys(true, true, true, true).calculate_direction(), "idle");
    assert_eq!(keys(true, true, true, false).direction(), Direction::Left);
    assert_eq!(keys(true, true, false, true).direction(), Direction::Forward);
}

#[test]
fn name_styles() {
    assert_eq!(keys(false, false, true, false).calculate_wasd_state(), "backward");
    assert_eq!(PressedKeys::new().calculate_wasd_state(), "idle");
    assert_eq!(PressedKeys::new().calculate_movement_direction(), "");
    assert_eq!(keys(false, false, true, false).calculate_movement_direction(), "backward");
}

#[test]
fn press_and_release() {
    let mut k = PressedKeys::new();
    k.insert(MovementKey::W);
    k.insert(MovementKey::D);
    assert!(k.contains(MovementKey::W));
    assert_eq!(k.calculate_direction(), "forward-right");
    k.insert(MovementKey::A);
    assert_eq!(k.calculate_direction(), "forward");
    k.remove(MovementKey::A);
    assert_eq!(k.calculate_direction(), "forward-right");
    k.set(MovementKey::W, false);
    assert!(!k.contains(MovementKey::W));
    assert_eq!(k.calculate_direction(), "right");
}

#[test]
fn joined_key_text() {
    assert_eq!(process_keyboard_state(&keys(true, false, true, false)), "forward-backward");
    assert_eq!(process_keyboard_state(&keys(true, true, true, true)), "forward-backward-left-right");
    assert_eq!(process_keyboard_state(&keys(false, true, false, false)), "left");
    assert_eq!(process_keyboard_state(&keys(false, false, false, false)), "");
}
