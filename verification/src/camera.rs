//! The vertically scrolling view onto the world.
use vstd::prelude::*;
use crate::geometry::{Rect, Vec2};
use crate::units::{clamp_i64, clamp_wide, div_trunc, trunc_div};

verus! {

/// A view of the world: the world point at the centre of the screen, and
/// the screen's size.
#[derive(Clone, Copy, PartialEq, Eq, Structural, Debug)]
pub struct Camera {
    pub target: Vec2,
    pub screen: Vec2,
}

impl Camera {
    /// The camera that shows the rectangle from the origin to `screen`.
    pub open spec fn over_screen(screen: Vec2) -> Camera {
        Camera {
            target: Vec2 { x: trunc_div(screen.x as int, 2) as i64, y: trunc_div(screen.y as int, 2) as i64 },
            screen,
        }
    }

    /// World height of the top edge of the view.
    pub open spec fn spec_top(self) -> int {
        clamp_i64(self.target.y - trunc_div(self.screen.y as int, 2))
    }

    /// World height of the bottom edge of the view.
    pub open spec fn spec_bottom(self) -> int {
        clamp_i64(self.target.y + trunc_div(self.screen.y as int, 2))
    }

    /// The world point shown at a point of the screen.
    pub open spec fn to_world(self, point: Vec2) -> Vec2 {
        Vec2 {
            x: clamp_i64(point.x + self.target.x - trunc_div(self.screen.x as int, 2)) as i64,
            y: clamp_i64(point.y + self.target.y - trunc_div(self.screen.y as int, 2)) as i64,
        }
    }

    /// The region outside of which entities are despawned: twice the screen
    /// in each direction, centred on the view horizontally and reaching one
    /// screen above and below the target.
    pub open spec fn play_zone(self) -> Rect {
        Rect {
            x: trunc_div(-(self.screen.x as int), 2) as i64,
            y: clamp_i64(self.target.y - self.screen.y) as i64,
            w: clamp_i64(self.screen.x * 2) as i64,
            h: clamp_i64(self.screen.y * 2) as i64,
        }
    }

    /// The target height that keeps a player at height `y` one third of a
    /// screen above the centre.
    pub open spec fn following(self, y: i64) -> Camera {
        Camera {
            target: Vec2 {
                x: self.target.x,
                y: clamp_i64(y + trunc_div(self.screen.y as int, 3)) as i64,
            },
            ..self
        }
    }

    /// The camera that shows the rectangle from the origin to `screen`.
    pub fn from_screen(screen: Vec2) -> (camera: Camera)
        ensures
            camera == Camera::over_screen(screen),
    {
        Camera {
            target: Vec2 { x: div_trunc(screen.x, 2), y: div_trunc(screen.y, 2) },
            screen,
        }
    }

    /// World height of the top edge of the view.
    pub fn top(&self) -> (y: i64)
        ensures
            y == self.spec_top(),
    {
        clamp_wide(self.target.y as i128 - div_trunc(self.screen.y, 2) as i128)
    }

    /// World height of the bottom edge of the view.
    pub fn bottom(&self) -> (y: i64)
        ensures
            y == self.spec_bottom(),
    {
        clamp_wide(self.target.y as i128 + div_trunc(self.screen.y, 2) as i128)
    }

    /// The world point shown at a point of the screen.
    pub fn screen_to_world(&self, point: Vec2) -> (p: Vec2)
        ensures
            p == self.to_world(point),
    {
        let half_w: i128 = div_trunc(self.screen.x, 2) as i128;
        let half_h: i128 = div_trunc(self.screen.y, 2) as i128;
        Vec2 {
            x: clamp_wide(point.x as i128 + self.target.x as i128 - half_w),
            y: clamp_wide(point.y as i128 + self.target.y as i128 - half_h),
        }
    }

    /// The region outside of which entities are despawned.
    pub fn zone(&self) -> (r: Rect)
        ensures
            r == self.play_zone(),
    {
        Rect {
            x: clamp_wide(-(div_trunc(self.screen.x, 2) as i128)),
            y: clamp_wide(self.target.y as i128 - self.screen.y as i128),
            w: clamp_wide(self.screen.x as i128 * 2),
            h: clamp_wide(self.screen.y as i128 * 2),
        }
    }

    /// Moves the target so that a player at height `y` stays one third of a
    /// screen above the centre.
    pub fn follow(&mut self, y: i64)
        ensures
            *final(self) == old(self).following(y),
    {
        self.target.y = clamp_wide(y as i128 + div_trunc(self.screen.y, 3) as i128);
    }
}

} // verus!
