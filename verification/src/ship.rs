//! The spaceship's kinematic state and its transitions: speed changes,
//! rotation by fixed increments, and the per-tick Euler integration step
//! with its wrap of the play area at the far edge.

use vstd::prelude::*;
use crate::trig::{ROTATION_STEPS, MILLI, sin_milli, cos_milli, spec_sin_milli, spec_cos_milli};
use crate::scene::ShipCache;

verus! {

/// A coordinate axis of the play area.
#[derive(Debug, Clone, Copy, PartialEq, Eq, Structural)]
pub enum Dimension {
    X,
    Y,
}

/// Past this coordinate, in thousandths of a unit, an axis wraps back to
/// the origin.
pub const WRAP_LIMIT_MILLI: i64 = 1_000_000;

/// Mathematical model of a [`Spaceship`]: its kinematic fields as
/// unbounded integers. The drawing cache is not part of the model.
pub ghost struct ShipModel {
    /// Rotation, in twentieths of a turn, always within one turn.
    pub rotation_step: int,
    /// Horizontal position, in thousandths of a unit.
    pub position_x: int,
    /// Vertical position, in thousandths of a unit.
    pub position_y: int,
    /// Signed speed, in thousandths of a unit per tick.
    pub speed: int,
    /// Width of the sprite frame, in thousandths of a unit.
    pub size_width: int,
    /// Height of the sprite frame, in thousandths of a unit.
    pub size_height: int,
}

impl ShipModel {
    /// The rotation is a valid increment count within a single turn.
    pub open spec fn wf(self) -> bool {
        0 <= self.rotation_step < ROTATION_STEPS
    }
}

/// The ship after its rotation turned one increment towards larger
/// angles, wrapping at a full turn.
pub open spec fn spec_rot_right(r: int) -> int {
    if r >= ROTATION_STEPS - 1 {
        0
    } else {
        r + 1
    }
}

/// The ship after its rotation turned one increment towards smaller
/// angles, wrapping below zero.
pub open spec fn spec_rot_left(r: int) -> int {
    if r <= 0 {
        ROTATION_STEPS - 1
    } else {
        r - 1
    }
}

/// The speed after adding `val`: if the sum lands exactly on zero it is
/// nudged by `val` once more, so that the tick timer never stalls.
pub open spec fn spec_speed_after(s: int, val: int) -> int {
    if s + val == 0 {
        s + 2 * val
    } else {
        s + val
    }
}

/// A speed update never leaves the speed at exactly zero: whatever the
/// speed was before, adding any nonzero `val` — with the nudge past an
/// exact zero — ends away from zero.
pub proof fn lemma_speed_update_never_zero(s: int, val: int)
    requires
        val != 0,
    ensures
        spec_speed_after(s, val) != 0,
{
}

/// `m` with its speed updated by `val`.
pub open spec fn speed_after_model(m: ShipModel, val: int) -> ShipModel {
    ShipModel {
        rotation_step: m.rotation_step,
        position_x: m.position_x,
        position_y: m.position_y,
        speed: spec_speed_after(m.speed, val),
        size_width: m.size_width,
        size_height: m.size_height,
    }
}

/// `m` rotated one increment towards larger angles.
pub open spec fn rot_right_model(m: ShipModel) -> ShipModel {
    ShipModel {
        rotation_step: spec_rot_right(m.rotation_step),
        position_x: m.position_x,
        position_y: m.position_y,
        speed: m.speed,
        size_width: m.size_width,
        size_height: m.size_height,
    }
}

/// `m` rotated one increment towards smaller angles.
pub open spec fn rot_left_model(m: ShipModel) -> ShipModel {
    ShipModel {
        rotation_step: spec_rot_left(m.rotation_step),
        position_x: m.position_x,
        position_y: m.position_y,
        speed: m.speed,
        size_width: m.size_width,
        size_height: m.size_height,
    }
}

/// One Euler integration step. Moving forwards (positive speed) the ship
/// advances one unit along its heading, moving backwards it retreats one
/// unit, and either way a coordinate that has passed the far edge of the
/// play area wraps back to the origin.
pub open spec fn tick_model(m: ShipModel) -> ShipModel {
    let x = if m.speed > 0 {
        m.position_x + spec_sin_milli(m.rotation_step)
    } else {
        m.position_x - spec_sin_milli(m.rotation_step)
    };
    let y = if m.speed > 0 {
        m.position_y - spec_cos_milli(m.rotation_step)
    } else {
        m.position_y + spec_cos_milli(m.rotation_step)
    };
    ShipModel {
        rotation_step: m.rotation_step,
        position_x: if x > WRAP_LIMIT_MILLI { 0 } else { x },
        position_y: if y > WRAP_LIMIT_MILLI { 0 } else { y },
        speed: m.speed,
        size_width: m.size_width,
        size_height: m.size_height,
    }
}

/// The position is far enough from the representable extremes for one
/// more integration step.
pub open spec fn can_tick(m: ShipModel) -> bool {
    &&& i64::MIN + MILLI <= m.position_x <= i64::MAX - MILLI
    &&& i64::MIN + MILLI <= m.position_y <= i64::MAX - MILLI
}

/// The ship at the start of the game: at the origin, pointing up, moving
/// forwards at one unit per tick.
pub open spec fn initial_ship() -> ShipModel {
    ShipModel {
        rotation_step: 0,
        position_x: 0,
        position_y: 0,
        speed: MILLI as int,
        size_width: 100 * MILLI as int,
        size_height: 100 * MILLI as int,
    }
}

/// The spaceship: kinematic state plus the cached drawing of its layer.
#[derive(Debug, Clone, Copy)]
pub struct Spaceship {
    /// Cached drawing of the ship layer.
    pub cache: ShipCache,
    /// Rotation, in twentieths of a turn; well-formed states keep it
    /// within a single turn.
    pub rotation_step: u8,
    /// Horizontal position, in thousandths of a unit.
    pub position_x: i64,
    /// Vertical position, in thousandths of a unit.
    pub position_y: i64,
    /// Signed speed, in thousandths of a unit per tick.
    pub speed: i64,
    /// Width of the sprite frame, in thousandths of a unit.
    pub size_width: i64,
    /// Height of the sprite frame, in thousandths of a unit.
    pub size_height: i64,
}

impl View for Spaceship {
    type V = ShipModel;

    open spec fn view(&self) -> ShipModel {
        ShipModel {
            rotation_step: self.rotation_step as int,
            position_x: self.position_x as int,
            position_y: self.position_y as int,
            speed: self.speed as int,
            size_width: self.size_width as int,
            size_height: self.size_height as int,
        }
    }
}

impl Spaceship {
    /// The rotation is a valid increment count within a single turn.
    pub open spec fn wf(&self) -> bool {
        self@.wf()
    }

    /// A ship in its starting state, with an empty drawing cache.
    pub fn new() -> (s: Spaceship)
        ensures
            s@ == initial_ship(),
            s.cache.cached is None,
            s.wf(),
    {
        Spaceship {
            cache: ShipCache::new(),
            rotation_step: 0,
            position_x: 0,
            position_y: 0,
            speed: MILLI,
            size_width: 100 * MILLI,
            size_height: 100 * MILLI,
        }
    }

    /// One Euler integration step: advance (or retreat) one unit along
    /// the current heading and wrap a coordinate that has passed the far
    /// edge of the play area back to the origin.
    pub fn calculate_position(&mut self)
        requires
            old(self).wf(),
            can_tick(old(self)@),
        ensures
            final(self)@ == tick_model(old(self)@),
            final(self).cache == old(self).cache,
            final(self).wf(),
    {
        let step: u8 = self.rotation_step;
        if self.speed > 0 {
            self.position_x = self.position_x + sin_milli(step);
            self.position_y = self.position_y - cos_milli(step);
        } else {
            self.position_x = self.position_x - sin_milli(step);
            self.position_y = self.position_y + cos_milli(step);
        }

        if self.position_x > WRAP_LIMIT_MILLI {
            self.flip_position(Dimension::X);
        }
        if self.position_y > WRAP_LIMIT_MILLI {
            self.flip_position(Dimension::Y);
        }
    }

    /// Reset one coordinate to the origin.
    pub fn flip_position(&mut self, d: Dimension)
        ensures
            final(self).position_x == (match d {
                Dimension::X => 0,
                Dimension::Y => old(self).position_x,
            }),
            final(self).position_y == (match d {
                Dimension::X => old(self).position_y,
                Dimension::Y => 0,
            }),
            final(self).rotation_step == old(self).rotation_step,
            final(self).speed == old(self).speed,
            final(self).size_width == old(self).size_width,
            final(self).size_height == old(self).size_height,
            final(self).cache == old(self).cache,
    {
        match d {
            Dimension::X => self.position_x = 0,
            Dimension::Y => self.position_y = 0,
        }
    }

    /// Add `val` to the speed; a sum of exactly zero is nudged by `val`
    /// once more, so a nonzero `val` never leaves the speed at zero.
    pub fn speed_update(&mut self, val: i64)
        requires
            i64::MIN <= old(self).speed + val <= i64::MAX,
        ensures
            final(self)@ == speed_after_model(old(self)@, val as int),
            final(self).cache == old(self).cache,
            val != 0 ==> final(self).speed != 0,
    {
        self.speed = self.speed + val;
        if self.speed == 0 {
            self.speed = self.speed + val;
        }
    }

    /// Turn one increment towards larger angles, wrapping at a full turn.
    pub fn rotate_right(&mut self)
        requires
            old(self).wf(),
        ensures
            final(self)@ == rot_right_model(old(self)@),
            final(self).cache == old(self).cache,
            final(self).wf(),
    {
        if self.rotation_step >= ROTATION_STEPS - 1 {
            self.rotation_step = 0;
        } else {
            self.rotation_step = self.rotation_step + 1;
        }
    }

    /// Turn one increment towards smaller angles, wrapping below zero.
    pub fn rotate_left(&mut self)
        requires
            old(self).wf(),
        ensures
            final(self)@ == rot_left_model(old(self)@),
            final(self).cache == old(self).cache,
            final(self).wf(),
    {
        if self.rotation_step == 0 {
            self.rotation_step = ROTATION_STEPS - 1;
        } else {
            self.rotation_step = self.rotation_step - 1;
        }
    }
}

impl Default for Spaceship {
    fn default() -> (s: Self)
        ensures
            s@ == initial_ship(),
            s.cache.cached is None,
            s.wf(),
    {
        Spaceship::new()
    }
}

} // verus!
