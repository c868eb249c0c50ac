//! The two cached drawing layers: plain scene descriptions and the
//! dirty-flag caches that hold them between redraws.
//!
//! A cache keeps its last scene until it is cleared (the ship layer,
//! cleared on every state change) or until it is asked for a different
//! frame size (the background layer, redrawn only on resize).

use vstd::prelude::*;

verus! {

/// The background layer: the visible area, filled black.
#[derive(Debug, Clone, Copy, PartialEq, Eq, Structural)]
#[verifier::ext_equal]
pub struct BackgroundScene {
    /// Width of the filled area, in thousandths of a unit.
    pub width: i64,
    /// Height of the filled area, in thousandths of a unit.
    pub height: i64,
}

/// The ship layer: the sprite, translated to the viewport centre plus the
/// ship's position and rotated by its current rotation.
#[derive(Debug, Clone, Copy, PartialEq, Eq, Structural)]
#[verifier::ext_equal]
pub struct ShipScene {
    /// Horizontal translation of the sprite, in thousandths of a unit.
    pub translate_x: i64,
    /// Vertical translation of the sprite, in thousandths of a unit.
    pub translate_y: i64,
    /// Rotation of the sprite, in twentieths of a turn.
    pub rotation_step: u8,
    /// Half the side of the square the sprite is drawn into, in
    /// thousandths of a unit.
    pub half_extent: i64,
    /// Width of the layer's own frame, in thousandths of a unit.
    pub frame_width: i64,
    /// Height of the layer's own frame, in thousandths of a unit.
    pub frame_height: i64,
}

/// Mathematical model of a [`ShipScene`].
pub ghost struct ShipSceneModel {
    pub translate_x: int,
    pub translate_y: int,
    pub rotation_step: int,
    pub half_extent: int,
    pub frame_width: int,
    pub frame_height: int,
}

impl View for ShipScene {
    type V = ShipSceneModel;

    open spec fn view(&self) -> ShipSceneModel {
        ShipSceneModel {
            translate_x: self.translate_x as int,
            translate_y: self.translate_y as int,
            rotation_step: self.rotation_step as int,
            half_extent: self.half_extent as int,
            frame_width: self.frame_width as int,
            frame_height: self.frame_height as int,
        }
    }
}

/// Cache for the background layer. The stored scene is reused as long as
/// the requested frame size matches; a new size forces a redraw.
#[derive(Debug, Clone, Copy, PartialEq, Eq, Structural)]
pub struct BackgroundCache {
    pub cached: Option<BackgroundScene>,
}

impl BackgroundCache {
    /// An empty cache.
    pub fn new() -> (c: BackgroundCache)
        ensures
            c.cached is None,
    {
        BackgroundCache { cached: None }
    }

    /// Discard the cached layer, forcing the next draw to recompute it.
    pub fn clear(&mut self)
        ensures
            final(self).cached is None,
    {
        self.cached = None;
    }

    /// Return the cached scene if it was drawn at the same size,
    /// otherwise store and return `fresh`. Either way the result is
    /// exactly `fresh`, because a background scene is determined by its
    /// size alone.
    pub fn draw(&mut self, fresh: BackgroundScene) -> (r: BackgroundScene)
        ensures
            r == fresh,
            final(self).cached == Some(r),
    {
        match self.cached {
            Some(s) => {
                if s.width == fresh.width && s.height == fresh.height {
                    proof {
                        assert(s =~= fresh);
                    }
                    s
                } else {
                    self.cached = Some(fresh);
                    fresh
                }
            },
            None => {
                self.cached = Some(fresh);
                fresh
            },
        }
    }
}

impl Default for BackgroundCache {
    fn default() -> (c: Self)
        ensures
            c.cached is None,
    {
        BackgroundCache::new()
    }
}

/// Cache for the ship layer. The stored scene is reused until the cache
/// is cleared, whatever state the ship has moved to meanwhile: keeping it
/// fresh is the caller's clear-on-mutate discipline.
#[derive(Debug, Clone, Copy, PartialEq, Eq, Structural)]
pub struct ShipCache {
    pub cached: Option<ShipScene>,
}

impl ShipCache {
    /// An empty cache.
    pub fn new() -> (c: ShipCache)
        ensures
            c.cached is None,
    {
        ShipCache { cached: None }
    }

    /// Discard the cached layer, forcing the next draw to recompute it.
    pub fn clear(&mut self)
        ensures
            final(self).cached is None,
    {
        self.cached = None;
    }

    /// Return the cached scene if there is one, otherwise store and
    /// return `fresh`.
    pub fn draw(&mut self, fresh: ShipScene) -> (r: ShipScene)
        ensures
            r == (match old(self).cached {
                Some(s) => s,
                None => fresh,
            }),
            final(self).cached == Some(r),
    {
        match self.cached {
            Some(s) => s,
            None => {
                self.cached = Some(fresh);
                fresh
            },
        }
    }
}

impl Default for ShipCache {
    fn default() -> (c: Self)
        ensures
            c.cached is None,
    {
        ShipCache::new()
    }
}

} // verus!
