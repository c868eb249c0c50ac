use spaceship::ship::{Dimension, Spaceship, WRAP_LIMIT_MILLI};
use spaceship::space::{handle_hotkey, Key, Message, Space};
use spaceship::trig::{cos_milli, sin_milli, MILLI};

#[test]
fn initial_state() {
    let s = Spaceship::new();
    assert_eq!(s.rotation_step, 0);
    assert_eq!(s.position_x, 0);
    assert_eq!(s.position_y, 0);
    assert_eq!(s.speed, MILLI);
    assert_eq!(s.size_width, 100 * MILLI);
    assert_eq!(s.size_height, 100 * MILLI);
    assert!(s.cache.cached.is_none());
}

#[test]
fn sine_table_exact_values() {
    assert_eq!(sin_milli(0), 0);
    assert_eq!(sin_milli(1), 309);
    assert_eq!(sin_milli(5), 1000);
    assert_eq!(sin_milli(10), 0);
    assert_eq!(sin_milli(15), -1000);
    assert_eq!(sin_milli(19), -309);
    assert_eq!(cos_milli(0), 1000);
    assert_eq!(cos_milli(5), 0);
    assert_eq!(cos_milli(10), -1000);
    assert_eq!(cos_milli(15), 0);
    assert_eq!(cos_milli(18), 809);
}

#[test]
fn sine_table_is_odd_around_half_turn() {
    for step in 0..10u8 {
        assert_eq!(sin_milli(step), -sin_milli(step + 10));
        assert_eq!(cos_milli(step), -cos_milli(step + 10));
    }
}

#[test]
fn forward_tick_from_initial_moves_up_one_unit() {
    let mut s = Spaceship::new();
    s.calculate_position();
    assert_eq!(s.position_x, 0);
    assert_eq!(s.position_y, -MILLI);
}

#[test]
fn forward_tick_wraps_x_past_limit() {
    let mut s = Spaceship::new();
    s.position_x = WRAP_LIMIT_MILLI + 100;
    s.calculate_position();
    assert_eq!(s.position_x, 0);
    assert_eq!(s.position_y, -MILLI);
}

#[test]
fn forward_tick_wraps_y_past_limit() {
    let mut s = Spaceship::new();
    s.rotation_step = 10;
    s.position_y = WRAP_LIMIT_MILLI + 1;
    s.calculate_position();
    assert_eq!(s.position_x, 0);
    assert_eq!(s.position_y, 0);
}

#[test]
fn backward_tick_wraps_x_past_limit() {
    let mut s = Spaceship::new();
    s.speed = -MILLI;
    s.position_x = WRAP_LIMIT_MILLI + 100;
    s.calculate_position();
    assert_eq!(s.position_x, 0);
    assert_eq!(s.position_y, MILLI);
}

#[test]
fn backward_tick_wraps_when_retreat_crosses_limit() {
    let mut s = Spaceship::new();
    s.speed = -MILLI;
    s.rotation_step = 11;
    s.position_x = WRAP_LIMIT_MILLI;
    s.calculate_position();
    assert_eq!(s.position_x, 0);
    assert_eq!(s.position_y, -951);
}

#[test]
fn diagonal_tick_uses_sine_table() {
    let mut s = Spaceship::new();
    s.rotation_step = 3;
    s.calculate_position();
    assert_eq!(s.position_x, 809);
    assert_eq!(s.position_y, -588);
}

#[test]
fn flip_position_resets_one_axis() {
    let mut s = Spaceship::new();
    s.position_x = 7;
    s.position_y = 9;
    s.flip_position(Dimension::X);
    assert_eq!(s.position_x, 0);
    assert_eq!(s.position_y, 9);
    s.flip_position(Dimension::Y);
    assert_eq!(s.position_y, 0);
}

#[test]
fn speed_update_adds() {
    let mut s = Spaceship::new();
    s.speed_update(MILLI);
    assert_eq!(s.speed, 2 * MILLI);
}

#[test]
fn speed_update_nudges_past_zero_downwards() {
    let mut s = Spaceship::new();
    s.speed_update(-MILLI);
    assert_eq!(s.speed, -MILLI);
}

#[test]
fn speed_update_nudges_past_zero_upwards() {
    let mut s = Spaceship::new();
    s.speed = -MILLI;
    s.speed_update(MILLI);
    assert_eq!(s.speed, MILLI);
}

#[test]
fn speed_never_zero_over_event_sequence() {
    let mut s = Spaceship::new();
    let vals = [-MILLI, -MILLI, MILLI, MILLI, MILLI, -MILLI, -MILLI, -MILLI, MILLI];
    for v in vals {
        s.speed_update(v);
        assert_ne!(s.speed, 0);
    }
}

#[test]
fn rotation_round_trip_restores_rotation() {
    let mut s = Spaceship::new();
    s.rotation_step = 4;
    for _ in 0..7 {
        s.rotate_right();
    }
    for _ in 0..7 {
        s.rotate_left();
    }
    assert_eq!(s.rotation_step, 4);
}

#[test]
fn full_turn_right_restores_rotation() {
    let mut s = Spaceship::new();
    for i in 1..20u8 {
        s.rotate_right();
        assert_eq!(s.rotation_step, i);
    }
    s.rotate_right();
    assert_eq!(s.rotation_step, 0);
}

#[test]
fn rotate_left_wraps_below_zero() {
    let mut s = Spaceship::new();
    s.rotate_left();
    assert_eq!(s.rotation_step, 19);
}

#[test]
fn hotkeys_map_arrows_and_ignore_others() {
    assert_eq!(handle_hotkey(Key::ArrowUp), Some(Message::Forward));
    assert_eq!(handle_hotkey(Key::ArrowDown), Some(Message::Backward));
    assert_eq!(handle_hotkey(Key::ArrowLeft), Some(Message::RotateLeft));
    assert_eq!(handle_hotkey(Key::ArrowRight), Some(Message::RotateRight));
    assert_eq!(handle_hotkey(Key::Other), None);
}

#[test]
fn update_tick_moves_ship_and_clears_cache() {
    let mut game = Space::new();
    game.update(Message::Tick);
    assert_eq!(game.state.spaceship.position_x, 0);
    assert_eq!(game.state.spaceship.position_y, -MILLI);
    assert!(game.state.spaceship.cache.cached.is_none());
}

#[test]
fn update_forward_speeds_up_then_moves() {
    let mut game = Space::new();
    game.update(Message::Forward);
    assert_eq!(game.state.spaceship.speed, 2 * MILLI);
    assert_eq!(game.state.spaceship.position_y, -MILLI);
}

#[test]
fn update_backward_crosses_zero_and_retreats() {
    let mut game = Space::new();
    game.update(Message::Backward);
    assert_eq!(game.state.spaceship.speed, -MILLI);
    assert_eq!(game.state.spaceship.position_y, MILLI);
}

#[test]
fn update_rotate_right_turns_then_moves() {
    let mut game = Space::new();
    game.update(Message::RotateRight);
    assert_eq!(game.state.spaceship.rotation_step, 1);
    assert_eq!(game.state.spaceship.position_x, 309);
    assert_eq!(game.state.spaceship.position_y, -951);
}

#[test]
fn update_rotate_left_turns_then_moves() {
    let mut game = Space::new();
    game.update(Message::RotateLeft);
    assert_eq!(game.state.spaceship.rotation_step, 19);
    assert_eq!(game.state.spaceship.position_x, -309);
    assert_eq!(game.state.spaceship.position_y, -951);
}

#[test]
fn tick_interval_is_inverse_to_speed() {
    let mut game = Space::new();
    assert_eq!(game.tick_interval_millis(), 1000);
    game.state.spaceship.speed = 2 * MILLI;
    assert_eq!(game.tick_interval_millis(), 500);
    game.state.spaceship.speed = -3 * MILLI;
    assert_eq!(game.tick_interval_millis(), 333);
    game.state.spaceship.speed = 2500;
    assert_eq!(game.tick_interval_millis(), 500);
}
