//! The thunder cloud: it drifts into view, waits, strikes once and is gone.
use vstd::prelude::*;
use crate::camera::Camera;
use crate::fling::{centre_box, centred};
use crate::geometry::{Rect, Vec2};
use crate::scenes::game_scene::{Sound, Sounds};
use crate::units::{add_sat, clamp_i64, distance, sub_sat, travel};

verus! {

/// Width and height of the thunder cloud's sprite.
pub const LIGHTING_CLOUD_DIM: (i64, i64) = (192_000, 96_000);

/// Speed at which the cloud descends into view.
pub const LIGHTNING_SPEED: i64 = 120_000;

/// Time from the cloud's creation to its strike.
pub const LIGHTNING_TIMER: i64 = 5_000;

/// How long the bolt lasts.
pub const BOLT_TIMER: i64 = 400;

/// Width of the bolt.
pub const BOLT_WIDTH: i64 = 50_000;

/// The phase of a thunder cloud's life.
#[derive(Clone, Copy, PartialEq, Eq, Structural, Debug)]
pub enum LightningState {
    Appearing,
    Waiting,
    Striking { bolt_hitbox: Rect },
    Destroyed,
}

/// A thunder cloud.
#[derive(Clone, Copy, PartialEq, Eq, Structural, Debug)]
pub struct Lightning {
    pub state: LightningState,
    pub position: Vec2,
    pub timer: i64,
    pub cloud_hitbox: Rect,
}

/// The place of a phase in the order in which a cloud passes through them.
pub open spec fn phase(state: LightningState) -> int {
    match state {
        LightningState::Appearing => 0,
        LightningState::Waiting => 1,
        LightningState::Striking { .. } => 2,
        LightningState::Destroyed => 3,
    }
}

/// The bolt under a cloud at `position`: centred, and twice as tall as the
/// screen.
pub open spec fn bolt_under(position: Vec2, screen_height: i64) -> Rect {
    Rect {
        x: clamp_i64(position.x + 71_000) as i64,
        y: position.y,
        w: BOLT_WIDTH,
        h: clamp_i64(screen_height * 2) as i64,
    }
}

impl Lightning {
    /// A cloud that has just been created.
    pub open spec fn fresh(position: Vec2) -> Lightning {
        Lightning {
            state: LightningState::Appearing,
            position,
            timer: LIGHTNING_TIMER,
            cloud_hitbox: Rect { x: position.x, y: position.y, w: 182_000, h: 86_000 },
        }
    }

    /// First part of a frame: the phase acts and may give way to the next.
    pub open spec fn decided(self, camera: Camera) -> Lightning {
        match self.state {
            LightningState::Appearing => {
                if self.position.y < camera.spec_top() {
                    self
                } else {
                    Lightning { state: LightningState::Waiting, ..self }
                }
            },
            LightningState::Waiting => {
                if self.timer < 0 {
                    Lightning {
                        state: LightningState::Striking {
                            bolt_hitbox: bolt_under(self.position, camera.screen.y),
                        },
                        timer: BOLT_TIMER,
                        ..self
                    }
                } else {
                    self
                }
            },
            LightningState::Striking { .. } => {
                if self.timer < 0 {
                    Lightning {
                        state: LightningState::Destroyed,
                        cloud_hitbox: Rect { x: 0, y: 0, w: 0, h: 0 },
                        ..self
                    }
                } else {
                    self
                }
            },
            LightningState::Destroyed => self,
        }
    }

    /// Whether this frame is the one in which the bolt appears.
    pub open spec fn strikes(self) -> bool {
        self.state == LightningState::Waiting && self.timer < 0
    }

    /// The cloud after one frame of `elapsed` milliseconds.
    pub open spec fn updated(self, camera: Camera, elapsed: i64) -> Lightning {
        let next = self.decided(camera);
        let position = if self.state == LightningState::Appearing && self.position.y
            < camera.spec_top() {
            Vec2 {
                x: self.position.x,
                y: clamp_i64(self.position.y + travel(LIGHTNING_SPEED as int, elapsed as int)) as i64,
            }
        } else {
            self.position
        };
        Lightning {
            position,
            cloud_hitbox: centred(
                position,
                LIGHTING_CLOUD_DIM.0,
                LIGHTING_CLOUD_DIM.1,
                next.cloud_hitbox.w,
                next.cloud_hitbox.h,
            ),
            timer: clamp_i64(next.timer - elapsed) as i64,
            ..next
        }
    }

    /// Whether the cloud, or its bolt while it strikes, touches `other`. A
    /// destroyed cloud touches nothing, wherever its emptied hitbox lies.
    pub open spec fn touches(self, other: Rect) -> bool {
        match self.state {
            LightningState::Destroyed => false,
            LightningState::Striking { bolt_hitbox } => self.cloud_hitbox.spec_overlaps(other)
                || bolt_hitbox.spec_overlaps(other),
            _ => self.cloud_hitbox.spec_overlaps(other),
        }
    }

    /// A cloud that starts to appear, its timer set to the time until the strike.
    pub fn new(position: Vec2) -> (lightning: Lightning)
        ensures
            lightning == Lightning::fresh(position),
    {
        Lightning {
            state: LightningState::Appearing,
            position,
            timer: LIGHTNING_TIMER,
            cloud_hitbox: Rect::new(
                position.x,
                position.y,
                LIGHTING_CLOUD_DIM.0 - 10_000,
                LIGHTING_CLOUD_DIM.1 - 10_000,
            ),
        }
    }

    /// Advances the cloud by one frame. Each frame keeps the phase or moves
    /// to the next one, never further and never back; the lightning cue
    /// fires exactly in the frame in which the bolt appears.
    pub fn update(&mut self, camera: &Camera, sounds: &mut Sounds, elapsed: i64)
        ensures
            *final(self) == old(self).updated(*camera, elapsed),
            phase(final(self).state) == phase(old(self).state) || phase(final(self).state) == phase(
                old(self).state,
            ) + 1,
            *final(sounds) == if old(self).strikes() {
                old(sounds).with(Sound::Lightning)
            } else {
                *old(sounds)
            },
    {
        match self.state {
            LightningState::Appearing => {
                if self.position.y < camera.top() {
                    self.position.y = add_sat(self.position.y, distance(LIGHTNING_SPEED, elapsed));
                } else {
                    self.state = LightningState::Waiting;
                }
            },
            LightningState::Waiting => {
                if self.timer < 0 {
                    sounds.fire(Sound::Lightning);
                    self.state = LightningState::Striking {
                        bolt_hitbox: Rect::new(
                            add_sat(self.position.x, (LIGHTING_CLOUD_DIM.0 - BOLT_WIDTH) / 2),
                            self.position.y,
                            BOLT_WIDTH,
                            add_sat(camera.screen.y, camera.screen.y),
                        ),
                    };
                    self.timer = BOLT_TIMER;
                }
            },
            LightningState::Striking { .. } => {
                if self.timer < 0 {
                    self.state = LightningState::Destroyed;
                    self.cloud_hitbox = Rect::empty();
                }
            },
            LightningState::Destroyed => {},
        }
        self.update_hitbox();
        self.timer = sub_sat(self.timer, elapsed);
    }

    /// The bolt, while the cloud strikes.
    pub fn bolt(&self) -> (bolt: Option<Rect>)
        ensures
            bolt == match self.state {
                LightningState::Striking { bolt_hitbox } => Some(bolt_hitbox),
                _ => None,
            },
    {
        match self.state {
            LightningState::Striking { bolt_hitbox } => Some(bolt_hitbox),
            _ => None,
        }
    }

    /// Which of the three pictures of the bolt to show: they change ten
    /// times a second.
    pub fn bolt_frame(&self) -> (frame: u8)
        ensures
            frame == if self.timer < 0 {
                0
            } else {
                (self.timer / 100) % 3
            },
    {
        if self.timer < 0 {
            0
        } else {
            ((self.timer / 100) % 3) as u8
        }
    }

    /// Whether the strike is over and the cloud is to be removed.
    pub fn should_destroy(&self) -> (b: bool)
        ensures
            b == (self.state == LightningState::Destroyed),
    {
        matches!(self.state, LightningState::Destroyed)
    }

    fn update_hitbox(&mut self)
        ensures
            *final(self) == (Lightning {
                cloud_hitbox: centred(
                    old(self).position,
                    LIGHTING_CLOUD_DIM.0,
                    LIGHTING_CLOUD_DIM.1,
                    old(self).cloud_hitbox.w,
                    old(self).cloud_hitbox.h,
                ),
                ..*old(self)
            }),
    {
        self.cloud_hitbox = centre_box(
            self.position,
            LIGHTING_CLOUD_DIM.0,
            LIGHTING_CLOUD_DIM.1,
            self.cloud_hitbox.w,
            self.cloud_hitbox.h,
        );
    }

    /// Whether the cloud, or its bolt while it strikes, touches a rectangle.
    /// A destroyed cloud takes part in no collision.
    pub fn collides_with(&self, other: &Rect) -> (b: bool)
        ensures
            b == self.touches(*other),
            self.state == LightningState::Destroyed ==> !b,
    {
        if self.should_destroy() {
            return false;
        }
        if self.cloud_hitbox.overlaps(other) {
            return true;
        }
        if let LightningState::Striking { bolt_hitbox } = self.state {
            if bolt_hitbox.overlaps(other) {
                return true;
            }
        }
        false
    }
}

/// A cloud never skips a phase and never returns to an earlier one.
pub proof fn lemma_phases_in_order(lightning: Lightning, camera: Camera, elapsed: i64)
    ensures
        phase(lightning.updated(camera, elapsed).state) == phase(lightning.state) || phase(
            lightning.updated(camera, elapsed).state,
        ) == phase(lightning.state) + 1,
        lightning.state == LightningState::Destroyed ==> lightning.updated(camera, elapsed).state
            == LightningState::Destroyed,
{
}

/// A waiting cloud strikes exactly when its timer has run out, and a bolt
/// ends exactly when its own timer has run out.
pub proof fn lemma_timer_gates_phases(lightning: Lightning, camera: Camera, elapsed: i64)
    ensures
        lightning.state == LightningState::Waiting ==> (lightning.updated(camera, elapsed).state
            is Striking <==> lightning.timer < 0),
        lightning.state is Striking ==> (lightning.updated(camera, elapsed).state
            == LightningState::Destroyed <==> lightning.timer < 0),
        lightning.state == LightningState::Appearing ==> (lightning.updated(camera, elapsed).state
            == LightningState::Waiting <==> lightning.position.y >= camera.spec_top()),
{
}

/// A cloud whose strike is over touches nothing, although the frame that
/// ends the strike still leaves an emptied hitbox at the sprite's centre.
pub proof fn lemma_destroyed_touches_nothing(
    lightning: Lightning,
    camera: Camera,
    elapsed: i64,
    other: Rect,
)
    ensures
        lightning.state == LightningState::Destroyed ==> !lightning.touches(other),
        lightning.updated(camera, elapsed).state == LightningState::Destroyed
            ==> !lightning.updated(camera, elapsed).touches(other),
{
}

} // verus!
