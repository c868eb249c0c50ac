//! The application shell: the message enum the event loop delivers, the
//! dispatch that turns a message into a state transition, the key-press
//! mapping, and the tick timer period — together with the laws that hold
//! of every message sequence.

use vstd::prelude::*;
use crate::trig::{ROTATION_STEPS, MILLI};
use crate::ship::{
    ShipModel, tick_model, can_tick, speed_after_model, rot_left_model, rot_right_model,
    spec_rot_left, spec_rot_right,
};
use crate::state::State;

verus! {

/// A discrete event delivered by the event loop: a timer tick or one of
/// the four arrow-key presses.
#[derive(Debug, Clone, Copy, PartialEq, Eq, Structural)]
pub enum Message {
    Tick,
    Forward,
    Backward,
    RotateLeft,
    RotateRight,
}

/// A key press as the library reads it: one of the four arrows, or any
/// other key.
#[derive(Debug, Clone, Copy, PartialEq, Eq, Structural)]
pub enum Key {
    ArrowUp,
    ArrowDown,
    ArrowLeft,
    ArrowRight,
    Other,
}

/// The message a key press produces, if any.
pub open spec fn spec_handle_hotkey(key: Key) -> Option<Message> {
    match key {
        Key::ArrowUp => Some(Message::Forward),
        Key::ArrowDown => Some(Message::Backward),
        Key::ArrowLeft => Some(Message::RotateLeft),
        Key::ArrowRight => Some(Message::RotateRight),
        Key::Other => None,
    }
}

/// Map a key press to its message: the four arrows drive the ship, every
/// other key is ignored.
pub fn handle_hotkey(key: Key) -> (r: Option<Message>)
    ensures
        r == spec_handle_hotkey(key),
{
    match key {
        Key::ArrowUp => Some(Message::Forward),
        Key::ArrowDown => Some(Message::Backward),
        Key::ArrowLeft => Some(Message::RotateLeft),
        Key::ArrowRight => Some(Message::RotateRight),
        Key::Other => None,
    }
}

/// The ship after one message: a key press first adjusts speed or
/// rotation, then every message ends in one integration step.
pub open spec fn apply_message(m: ShipModel, msg: Message) -> ShipModel {
    match msg {
        Message::Tick => tick_model(m),
        Message::Forward => tick_model(speed_after_model(m, MILLI as int)),
        Message::Backward => tick_model(speed_after_model(m, -(MILLI as int))),
        Message::RotateLeft => tick_model(rot_left_model(m)),
        Message::RotateRight => tick_model(rot_right_model(m)),
    }
}

/// The machine can take one more step on this message: the position is
/// away from the representable extremes and a speed change still fits.
pub open spec fn can_apply(m: ShipModel, msg: Message) -> bool {
    &&& can_tick(m)
    &&& (match msg {
        Message::Forward => m.speed + MILLI <= i64::MAX,
        Message::Backward => i64::MIN <= m.speed - MILLI,
        _ => true,
    })
}

/// The ship after a whole sequence of messages, applied front to back.
pub open spec fn apply_messages(m: ShipModel, msgs: Seq<Message>) -> ShipModel
    decreases msgs.len(),
{
    if msgs.len() == 0 {
        m
    } else {
        apply_messages(apply_message(m, msgs[0]), msgs.drop_first())
    }
}

/// The ship after the same message `n` times over.
pub open spec fn apply_message_n(m: ShipModel, msg: Message, n: nat) -> ShipModel
    decreases n,
{
    if n == 0 {
        m
    } else {
        apply_message(apply_message_n(m, msg, (n - 1) as nat), msg)
    }
}

/// The tick timer period in milliseconds: inversely proportional to the
/// whole units of speed.
pub open spec fn spec_tick_interval_millis(speed: int) -> int {
    1000int / ((if speed < 0 { -speed } else { speed }) / 1000)
}

/// The application: the game state driven by the event loop.
#[derive(Debug, Clone, Copy)]
pub struct Space {
    pub state: State,
}

impl Space {
    /// A game in its starting state.
    pub fn new() -> (s: Space)
        ensures
            s.state.spaceship@ == crate::ship::initial_ship(),
            s.state.spaceship.cache.cached is None,
            s.state.space_cache.cached is None,
            s.state.wf(),
    {
        Space { state: State::new() }
    }

    /// Dispatch one message: adjust speed or rotation as the message
    /// asks, take one integration step, and invalidate the ship's cached
    /// layer so the next draw reflects the new state.
    pub fn update(&mut self, message: Message)
        requires
            old(self).state.wf(),
            can_apply(old(self).state.spaceship@, message),
        ensures
            final(self).state.spaceship@ == apply_message(old(self).state.spaceship@, message),
            final(self).state.spaceship.cache.cached is None,
            final(self).state.space_cache == old(self).state.space_cache,
            final(self).state.wf(),
    {
        match message {
            Message::Tick => {
                self.state.update();
            },
            Message::Forward => {
                self.state.spaceship.speed_update(MILLI);
                self.state.update();
            },
            Message::Backward => {
                self.state.spaceship.speed_update(-MILLI);
                self.state.update();
            },
            Message::RotateLeft => {
                self.state.spaceship.rotate_left();
                self.state.update();
            },
            Message::RotateRight => {
                self.state.spaceship.rotate_right();
                self.state.update();
            },
        }
    }

    /// The tick timer period in milliseconds, inversely proportional to
    /// the current speed: faster ships tick more often. Defined for
    /// speeds of at least one whole unit either way.
    pub fn tick_interval_millis(&self) -> (r: u64)
        requires
            self.state.spaceship.speed >= MILLI || self.state.spaceship.speed <= -MILLI,
            i64::MIN < self.state.spaceship.speed,
        ensures
            r as int == spec_tick_interval_millis(self.state.spaceship.speed as int),
    {
        let s: i64 = self.state.spaceship.speed;
        let magnitude: i64 = if s < 0 { -s } else { s };
        let whole_units: i64 = magnitude / MILLI;
        (1000 / whole_units) as u64
    }
}

impl Default for Space {
    fn default() -> (s: Self)
        ensures
            s.state.spaceship@ == crate::ship::initial_ship(),
            s.state.spaceship.cache.cached is None,
            s.state.space_cache.cached is None,
            s.state.wf(),
    {
        Space::new()
    }
}

/// No message moves the speed to zero: one step of the law below.
proof fn lemma_apply_message_speed_nonzero(m: ShipModel, msg: Message)
    requires
        m.speed != 0,
    ensures
        apply_message(m, msg).speed != 0,
{
}

/// The speed is never left at exactly zero: starting from any nonzero
/// speed, no sequence of messages — ticks, speed changes forwards or
/// backwards, rotations — ends with the speed at zero.
pub proof fn lemma_speed_never_zero(m: ShipModel, msgs: Seq<Message>)
    requires
        m.speed != 0,
    ensures
        apply_messages(m, msgs).speed != 0,
    decreases msgs.len(),
{
    if msgs.len() > 0 {
        lemma_apply_message_speed_nonzero(m, msgs[0]);
        lemma_speed_never_zero(apply_message(m, msgs[0]), msgs.drop_first());
    }
}

/// Rotating one increment and back restores the rotation.
proof fn lemma_rot_left_undoes_right(r: int)
    requires
        0 <= r < ROTATION_STEPS,
    ensures
        spec_rot_left(spec_rot_right(r)) == r,
{
}

/// The rotation after `n` increments towards larger angles.
spec fn spec_rot_right_n(r: int, n: nat) -> int
    decreases n,
{
    if n == 0 {
        r
    } else {
        spec_rot_right(spec_rot_right_n(r, (n - 1) as nat))
    }
}

/// The rotation after `n` increments towards smaller angles.
spec fn spec_rot_left_n(r: int, n: nat) -> int
    decreases n,
{
    if n == 0 {
        r
    } else {
        spec_rot_left(spec_rot_left_n(r, (n - 1) as nat))
    }
}

/// Iterated right rotation stays within a single turn.
proof fn lemma_rot_right_n_in_range(r: int, n: nat)
    requires
        0 <= r < ROTATION_STEPS,
    ensures
        0 <= spec_rot_right_n(r, n) < ROTATION_STEPS,
    decreases n,
{
    if n > 0 {
        lemma_rot_right_n_in_range(r, (n - 1) as nat);
    }
}

/// Iterated left rotation can also be unfolded at its first step.
proof fn lemma_rot_left_n_unfold_front(r: int, n: nat)
    requires
        n >= 1,
    ensures
        spec_rot_left_n(r, n) == spec_rot_left_n(spec_rot_left(r), (n - 1) as nat),
    decreases n,
{
    if n == 1 {
        assert(spec_rot_left_n(r, 1) == spec_rot_left(spec_rot_left_n(r, 0)));
        assert(spec_rot_left_n(spec_rot_left(r), 0) == spec_rot_left(r));
    } else {
        lemma_rot_left_n_unfold_front(r, (n - 1) as nat);
        assert(spec_rot_left_n(r, n) == spec_rot_left(spec_rot_left_n(r, (n - 1) as nat)));
        assert(spec_rot_left_n(spec_rot_left(r), (n - 1) as nat) == spec_rot_left(
            spec_rot_left_n(spec_rot_left(r), (n - 2) as nat),
        ));
    }
}

/// `n` left rotations undo `n` right rotations.
proof fn lemma_rot_round_trip_int(r: int, n: nat)
    requires
        0 <= r < ROTATION_STEPS,
    ensures
        spec_rot_left_n(spec_rot_right_n(r, n), n) == r,
    decreases n,
{
    if n > 0 {
        lemma_rot_right_n_in_range(r, (n - 1) as nat);
        lemma_rot_left_n_unfold_front(spec_rot_right_n(r, n), n);
        lemma_rot_left_undoes_right(spec_rot_right_n(r, (n - 1) as nat));
        lemma_rot_round_trip_int(r, (n - 1) as nat);
    }
}

/// After `n` rotate-right messages the rotation is `n` increments to the
/// right; every other component of a rotate message leaves the rotation
/// alone.
proof fn lemma_apply_n_rotation_right(m: ShipModel, n: nat)
    ensures
        apply_message_n(m, Message::RotateRight, n).rotation_step == spec_rot_right_n(
            m.rotation_step,
            n,
        ),
    decreases n,
{
    if n > 0 {
        lemma_apply_n_rotation_right(m, (n - 1) as nat);
    }
}

/// After `n` rotate-left messages the rotation is `n` increments to the
/// left.
proof fn lemma_apply_n_rotation_left(m: ShipModel, n: nat)
    ensures
        apply_message_n(m, Message::RotateLeft, n).rotation_step == spec_rot_left_n(
            m.rotation_step,
            n,
        ),
    decreases n,
{
    if n > 0 {
        lemma_apply_n_rotation_left(m, (n - 1) as nat);
    }
}

/// Rotation round trip: from any well-formed state, `n` rotate-right
/// messages followed by `n` rotate-left messages bring the rotation back
/// exactly to where it started, whatever the ship's motion did meanwhile.
pub proof fn lemma_rotation_round_trip(m: ShipModel, n: nat)
    requires
        m.wf(),
    ensures
        apply_message_n(
            apply_message_n(m, Message::RotateRight, n),
            Message::RotateLeft,
            n,
        ).rotation_step == m.rotation_step,
{
    lemma_apply_n_rotation_right(m, n);
    lemma_apply_n_rotation_left(apply_message_n(m, Message::RotateRight, n), n);
    lemma_rot_round_trip_int(m.rotation_step, n);
}

} // verus!
