//! Clouds that the pointer can grab and fling.
use vstd::prelude::*;
use crate::geometry::{Rect, Vec2};
use crate::units::{add_sat, bound, bound_to, clamp_i64, half, sub_sat, trunc_div};

verus! {

/// Width of a cloud's sprite.
pub const THING_WIDTH: i64 = 53_000;

/// Height of a cloud's sprite.
pub const THING_HEIGHT: i64 = 25_000;

/// A drag shorter than this on both axes is ignored.
pub const FLING_THRESHOLD: i64 = 50_000;

/// The greatest speed a fling gives on either axis.
pub const FLING_LIMIT: i64 = 250_000;

/// What a cloud does to the player on contact.
#[derive(Clone, Copy, PartialEq, Eq, Structural, Debug)]
pub enum FlingKind {
    Cloud,
    GoldCloud,
}

/// The life of a cloud: at rest, in flung motion, or gone.
#[derive(Clone, Copy, PartialEq, Eq, Structural, Debug)]
pub enum FlingState {
    Normal,
    Flung,
    Destroyed,
}

/// A cloud.
#[derive(Clone, Copy, PartialEq, Eq, Structural, Debug)]
pub struct FlingThing {
    pub kind: FlingKind,
    pub position: Vec2,
    pub velocity: Vec2,
    pub state: FlingState,
    pub hitbox: Rect,
}

/// A box of size `w` by `h` centred in a sprite of size `sprite_w` by
/// `sprite_h` whose top-left corner is `position`.
pub open spec fn centred(position: Vec2, sprite_w: i64, sprite_h: i64, w: i64, h: i64) -> Rect {
    Rect {
        x: clamp_i64(position.x + trunc_div(clamp_i64(sprite_w - w), 2)) as i64,
        y: clamp_i64(position.y + trunc_div(clamp_i64(sprite_h - h), 2)) as i64,
        w,
        h,
    }
}

/// The box of size `w` by `h` centred in the sprite at `position`.
pub fn centre_box(position: Vec2, sprite_w: i64, sprite_h: i64, w: i64, h: i64) -> (r: Rect)
    ensures
        r == centred(position, sprite_w, sprite_h, w, h),
{
    Rect {
        x: add_sat(position.x, half(sub_sat(sprite_w, w))),
        y: add_sat(position.y, half(sub_sat(sprite_h, h))),
        w,
        h,
    }
}

/// Whether a requested fling is strong enough to count.
pub open spec fn strong_enough(v: Vec2) -> bool {
    v.x > FLING_THRESHOLD || v.x < -FLING_THRESHOLD || v.y > FLING_THRESHOLD || v.y
        < -FLING_THRESHOLD
}

/// A requested fling velocity held within the limit on each axis.
pub open spec fn limited(v: Vec2) -> Vec2 {
    Vec2 {
        x: bound(v.x as int, -FLING_LIMIT as int, FLING_LIMIT as int) as i64,
        y: bound(v.y as int, -FLING_LIMIT as int, FLING_LIMIT as int) as i64,
    }
}

/// Whether a requested fling is strong enough to count.
pub fn is_strong(v: Vec2) -> (b: bool)
    ensures
        b == strong_enough(v),
{
    v.x > FLING_THRESHOLD || v.x < -FLING_THRESHOLD || v.y > FLING_THRESHOLD || v.y
        < -FLING_THRESHOLD
}

impl FlingThing {
    /// A cloud at rest.
    pub open spec fn fresh(kind: FlingKind, position: Vec2) -> FlingThing {
        FlingThing {
            kind,
            position,
            velocity: Vec2 { x: 0, y: 0 },
            state: FlingState::Normal,
            hitbox: centred(position, THING_WIDTH, THING_HEIGHT, 48_000, 22_000),
        }
    }

    /// The cloud after a fling request.
    pub open spec fn flung_by(self, v: Vec2) -> FlingThing {
        if self.state == FlingState::Normal && strong_enough(v) {
            FlingThing { velocity: limited(v), state: FlingState::Flung, ..self }
        } else {
            self
        }
    }

    /// The cloud after `elapsed` milliseconds.
    pub open spec fn moved(self, elapsed: i64) -> FlingThing {
        if self.state == FlingState::Flung {
            let position = self.position.plus(self.velocity.over(elapsed));
            FlingThing {
                position,
                hitbox: centred(position, THING_WIDTH, THING_HEIGHT, self.hitbox.w, self.hitbox.h),
                ..self
            }
        } else {
            self
        }
    }

    /// The cloud after something struck it.
    pub open spec fn struck(self) -> FlingThing {
        FlingThing {
            state: FlingState::Destroyed,
            hitbox: Rect { x: 0, y: 0, w: 0, h: 0 },
            ..self
        }
    }

    /// A cloud at rest, its hitbox centred in its sprite.
    pub fn new(kind: FlingKind, position: Vec2) -> (thing: FlingThing)
        ensures
            thing == FlingThing::fresh(kind, position),
    {
        FlingThing {
            kind,
            position,
            velocity: Vec2::zero(),
            state: FlingState::Normal,
            hitbox: centre_box(position, THING_WIDTH, THING_HEIGHT, 48_000, 22_000),
        }
    }

    /// Sets a cloud at rest in motion, if the request is strong enough.
    /// A cloud that is already flung or destroyed stays as it is.
    pub fn fling(&mut self, velocity: Vec2)
        ensures
            *final(self) == old(self).flung_by(velocity),
            final(self).state == FlingState::Flung && old(self).state != FlingState::Flung ==> {
                &&& -FLING_LIMIT <= final(self).velocity.x <= FLING_LIMIT
                &&& -FLING_LIMIT <= final(self).velocity.y <= FLING_LIMIT
            },
    {
        if matches!(self.state, FlingState::Normal) && is_strong(velocity) {
            self.velocity = Vec2 {
                x: bound_to(velocity.x, -FLING_LIMIT, FLING_LIMIT),
                y: bound_to(velocity.y, -FLING_LIMIT, FLING_LIMIT),
            };
            self.state = FlingState::Flung;
        }
    }

    /// Moves a flung cloud; any other cloud stays where it is.
    pub fn update(&mut self, elapsed: i64)
        ensures
            *final(self) == old(self).moved(elapsed),
    {
        if matches!(self.state, FlingState::Flung) {
            self.position = self.position.add_vec(self.velocity.scaled(elapsed));
            self.update_hitbox();
        }
    }

    fn update_hitbox(&mut self)
        ensures
            *final(self) == (FlingThing {
                hitbox: centred(
                    old(self).position,
                    THING_WIDTH,
                    THING_HEIGHT,
                    old(self).hitbox.w,
                    old(self).hitbox.h,
                ),
                ..*old(self)
            }),
    {
        self.hitbox = centre_box(
            self.position,
            THING_WIDTH,
            THING_HEIGHT,
            self.hitbox.w,
            self.hitbox.h,
        );
    }

    /// Whether the cloud is in flung motion.
    pub fn flung(&self) -> (b: bool)
        ensures
            b == (self.state == FlingState::Flung),
    {
        matches!(self.state, FlingState::Flung)
    }

    /// Destroys the cloud and empties its hitbox.
    pub fn collision(&mut self)
        ensures
            *final(self) == old(self).struck(),
    {
        self.state = FlingState::Destroyed;
        self.hitbox = Rect::empty();
    }

    /// Whether the cloud has been destroyed and is to be removed.
    pub fn should_destroy(&self) -> (b: bool)
        ensures
            b == (self.state == FlingState::Destroyed),
    {
        matches!(self.state, FlingState::Destroyed)
    }
}

/// A fling within the threshold on both axes leaves a cloud at rest as it
/// is; a stronger one sets it in flung motion, at no more than the limit on
/// either axis and unchanged on an axis where the request is within it.
pub proof fn lemma_fling_threshold_and_limit(thing: FlingThing, v: Vec2)
    requires
        thing.state == FlingState::Normal,
    ensures
        !strong_enough(v) ==> thing.flung_by(v) == thing,
        strong_enough(v) ==> {
            &&& thing.flung_by(v).state == FlingState::Flung
            &&& -FLING_LIMIT <= thing.flung_by(v).velocity.x <= FLING_LIMIT
            &&& -FLING_LIMIT <= thing.flung_by(v).velocity.y <= FLING_LIMIT
            &&& -FLING_LIMIT <= v.x <= FLING_LIMIT ==> thing.flung_by(v).velocity.x == v.x
            &&& -FLING_LIMIT <= v.y <= FLING_LIMIT ==> thing.flung_by(v).velocity.y == v.y
        },
{
}

/// A destroyed cloud is inert: neither a fling nor the passing of time
/// changes it.
pub proof fn lemma_destroyed_is_inert(thing: FlingThing, v: Vec2, elapsed: i64)
    requires
        thing.state == FlingState::Destroyed,
    ensures
        thing.flung_by(v) == thing,
        thing.moved(elapsed) == thing,
        thing.struck().state == FlingState::Destroyed,
{
}

} // verus!
