//! Simulation core of a vertically scrolling balloon-flight arcade game.
//!
//! Every quantity is a fixed-point integer: lengths are thousandths of a
//! pixel, times are milliseconds, and speeds are thousandths of a pixel per
//! second. Arithmetic on positions and timers saturates at the limits of
//! `i64`, so no update can overflow.
use vstd::prelude::*;

pub mod units;
pub mod geometry;
pub mod chance;
pub mod camera;
pub mod fling;
pub mod cursor;
pub mod collision;
pub mod cleanup;
pub mod bird;
pub mod lightning;
pub mod level_gen;
pub mod player;
pub mod scene;
pub mod scenes;

verus! {

/// A horizontal direction of travel.
#[derive(Clone, Copy, PartialEq, Eq, Structural, Debug)]
pub enum HDirection {
    Left,
    Right,
}

} // verus!
