//! The render-facing game state: the spaceship together with the cached
//! background layer, the clear-on-mutate update step, and the draw that
//! produces the two scene layers.

use vstd::prelude::*;
use crate::trig::MILLI;
use crate::scene::{BackgroundScene, BackgroundCache, ShipScene, ShipSceneModel};
use crate::ship::{Spaceship, ShipModel, tick_model, can_tick, initial_ship};

verus! {

/// The ship scene that a draw of `m` at a `w` by `h` viewport computes:
/// the sprite translated to the viewport centre plus the ship's position,
/// rotated by its rotation, in a square of half-side 35 units, inside the
/// ship's own frame.
pub open spec fn spec_ship_scene(m: ShipModel, w: int, h: int) -> ShipSceneModel {
    ShipSceneModel {
        translate_x: w / 2 + m.position_x,
        translate_y: h / 2 + m.position_y,
        rotation_step: m.rotation_step,
        half_extent: 35 * MILLI as int,
        frame_width: m.size_width,
        frame_height: m.size_height,
    }
}

/// The game state: the ship with its layer cache, and the background
/// layer cache.
#[derive(Debug, Clone, Copy)]
pub struct State {
    /// Cached drawing of the background layer.
    pub space_cache: BackgroundCache,
    /// The ship, which carries its own layer cache.
    pub spaceship: Spaceship,
}

/// The ship's cached layer, if present, is exactly what a draw of the
/// current state at a `w` by `h` viewport would compute: the
/// clear-on-mutate discipline has not been broken since the last draw at
/// this viewport size.
pub open spec fn cache_clean(s: State, w: int, h: int) -> bool {
    match s.spaceship.cache.cached {
        Some(sc) => sc@ == spec_ship_scene(s.spaceship@, w, h),
        None => true,
    }
}

/// Everything a draw call does: the background scene is the viewport
/// filled black; the ship scene is the cached layer if one is present and
/// the freshly computed layer otherwise; both results are left cached;
/// and the ship's kinematic state is untouched.
pub open spec fn draw_post(
    pre: State,
    post: State,
    w: i64,
    h: i64,
    r: (BackgroundScene, ShipScene),
) -> bool {
    &&& r.0 == (BackgroundScene { width: w, height: h })
    &&& (match pre.spaceship.cache.cached {
        Some(s) => r.1 == s,
        None => r.1@ == spec_ship_scene(pre.spaceship@, w as int, h as int),
    })
    &&& post.spaceship.cache.cached == Some(r.1)
    &&& post.space_cache.cached == Some(r.0)
    &&& post.spaceship@ == pre.spaceship@
}

/// The freshly computed ship layer for this viewport.
fn ship_scene_now(ship: &Spaceship, width: i64, height: i64) -> (r: ShipScene)
    requires
        0 <= width,
        0 <= height,
        ship.position_x + width / 2 <= i64::MAX,
        ship.position_y + height / 2 <= i64::MAX,
    ensures
        r@ == spec_ship_scene(ship@, width as int, height as int),
{
    ShipScene {
        translate_x: width / 2 + ship.position_x,
        translate_y: height / 2 + ship.position_y,
        rotation_step: ship.rotation_step,
        half_extent: 35 * MILLI,
        frame_width: ship.size_width,
        frame_height: ship.size_height,
    }
}

impl State {
    /// The ship's rotation is well-formed.
    pub open spec fn wf(&self) -> bool {
        self.spaceship.wf()
    }

    /// The starting state: a fresh ship and two empty layer caches.
    pub fn new() -> (s: State)
        ensures
            s.spaceship@ == initial_ship(),
            s.spaceship.cache.cached is None,
            s.space_cache.cached is None,
            s.wf(),
    {
        State { space_cache: BackgroundCache::new(), spaceship: Spaceship::new() }
    }

    /// Advance the ship one integration step and invalidate its cached
    /// layer, so the next draw reflects the new state. The background
    /// cache is untouched.
    pub fn update(&mut self)
        requires
            old(self).wf(),
            can_tick(old(self).spaceship@),
        ensures
            final(self).spaceship@ == tick_model(old(self).spaceship@),
            final(self).spaceship.cache.cached is None,
            final(self).space_cache == old(self).space_cache,
            final(self).wf(),
    {
        self.spaceship.calculate_position();
        self.spaceship.cache.clear();
    }

    /// Produce the two scene layers for a `width` by `height` viewport,
    /// reusing each cached layer as [`draw_post`] describes. When the
    /// ship's cache is clean the ship layer is exactly the scene of the
    /// current state.
    pub fn draw(&mut self, width: i64, height: i64) -> (r: (BackgroundScene, ShipScene))
        requires
            0 <= width,
            0 <= height,
            old(self).spaceship.position_x + width / 2 <= i64::MAX,
            old(self).spaceship.position_y + height / 2 <= i64::MAX,
        ensures
            draw_post(*old(self), *final(self), width, height, r),
            cache_clean(*old(self), width as int, height as int) ==> r.1@ == spec_ship_scene(
                old(self).spaceship@,
                width as int,
                height as int,
            ),
    {
        let background = self.space_cache.draw(BackgroundScene { width: width, height: height });
        let fresh = ship_scene_now(&self.spaceship, width, height);
        let ship = self.spaceship.cache.draw(fresh);
        (background, ship)
    }
}

impl Default for State {
    fn default() -> (s: Self)
        ensures
            s.spaceship@ == initial_ship(),
            s.spaceship.cache.cached is None,
            s.space_cache.cached is None,
            s.wf(),
    {
        State::new()
    }
}

/// Redrawing is idempotent: two successive draws at the same viewport,
/// with no state update in between, return identical scenes both times —
/// the second draw hands back exactly what the first one cached.
pub proof fn lemma_redraw_idempotent(
    s0: State,
    s1: State,
    s2: State,
    w: i64,
    h: i64,
    r1: (BackgroundScene, ShipScene),
    r2: (BackgroundScene, ShipScene),
)
    requires
        draw_post(s0, s1, w, h, r1),
        draw_post(s1, s2, w, h, r2),
    ensures
        r1 == r2,
{
}

} // verus!
