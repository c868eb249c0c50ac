use spaceship::scene::{BackgroundScene, ShipScene};
use spaceship::space::{Message, Space};
use spaceship::state::State;
use spaceship::trig::MILLI;

const W: i64 = 800 * MILLI;
const H: i64 = 600 * MILLI;

#[test]
fn draw_places_ship_at_centre_plus_position() {
    let mut st = State::new();
    let (background, ship) = st.draw(W, H);
    assert_eq!(background, BackgroundScene { width: W, height: H });
    assert_eq!(
        ship,
        ShipScene {
            translate_x: W / 2,
            translate_y: H / 2,
            rotation_step: 0,
            half_extent: 35 * MILLI,
            frame_width: 100 * MILLI,
            frame_height: 100 * MILLI,
        }
    );
}

#[test]
fn redraw_is_idempotent() {
    let mut st = State::new();
    st.update();
    let first = st.draw(W, H);
    let second = st.draw(W, H);
    assert_eq!(first, second);
    assert_eq!(st.spaceship.cache.cached, Some(second.1));
    assert_eq!(st.space_cache.cached, Some(second.0));
}

#[test]
fn draw_after_update_reflects_new_position() {
    let mut st = State::new();
    let (_, before) = st.draw(W, H);
    st.update();
    assert!(st.spaceship.cache.cached.is_none());
    let (_, after) = st.draw(W, H);
    assert_eq!(before.translate_y - after.translate_y, MILLI);
    assert_eq!(after.translate_x, before.translate_x);
}

#[test]
fn ship_layer_is_reused_until_cleared() {
    let mut st = State::new();
    let (_, first) = st.draw(W, H);
    st.spaceship.position_x = 42 * MILLI;
    let (_, stale) = st.draw(W, H);
    assert_eq!(stale, first);
    st.spaceship.cache.clear();
    let (_, fresh) = st.draw(W, H);
    assert_eq!(fresh.translate_x, W / 2 + 42 * MILLI);
}

#[test]
fn background_layer_redraws_only_on_resize() {
    let mut st = State::new();
    let (first, _) = st.draw(W, H);
    let (same, _) = st.draw(W, H);
    assert_eq!(first, same);
    let (resized, _) = st.draw(W / 2, H);
    assert_eq!(resized, BackgroundScene { width: W / 2, height: H });
}

#[test]
fn game_loop_updates_then_redraws() {
    let mut game = Space::new();
    game.update(Message::RotateRight);
    game.update(Message::Tick);
    let (_, ship) = game.state.draw(W, H);
    assert_eq!(ship.rotation_step, 1);
    assert_eq!(ship.translate_x, W / 2 + 2 * 309);
    assert_eq!(ship.translate_y, H / 2 - 2 * 951);
}
