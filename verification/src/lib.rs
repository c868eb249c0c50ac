//! A small 2D spaceship movement library: a keyboard- and timer-driven
//! position-and-rotation model, redrawn through cached scene layers.
//!
//! All lengths and speeds are carried in thousandths of a unit and the
//! rotation in twentieths of a turn, so that every state transition is
//! exact integer arithmetic.

pub mod trig;
pub mod scene;
pub mod ship;
pub mod state;
pub mod space;
