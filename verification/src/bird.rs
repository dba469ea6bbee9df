//! Birds that fly in from the side, line up above the player and dive.
use vstd::prelude::*;
use crate::HDirection;
use crate::chance::draw_between;
use crate::fling::{centre_box, centred};
use crate::geometry::{Rect, Vec2};
use crate::player::Player;
use crate::units::{add_sat, clamp_i64, clamp_wide, sub_sat};

verus! {

/// Speed of a bird along either axis.
pub const BIRD_SPEED: i64 = 120_000;

/// How far ahead a bird predicts the player's position.
pub const BIRD_PREDICTION_TIME: i64 = 5_000;

/// Width and height of a bird's hitbox.
pub const BIRD_SIZE: i64 = 30_000;

/// Width and height of a bird's sprite.
pub const BIRD_SPRITE: i64 = 45_000;

/// How far from the screen's edge a bird appears.
pub const BIRD_MARGIN: i64 = 25_000;

/// The pause before a dive varies by up to this much either way.
pub const BIRD_JITTER: i64 = 250;

/// The phase of a bird's attack.
#[derive(Clone, Copy, PartialEq, Eq, Structural, Debug)]
pub enum BirdState {
    Arrival,
    Target,
    Flight,
}

/// A bird.
#[derive(Clone, Copy, PartialEq, Eq, Structural, Debug)]
pub struct Bird {
    pub state: BirdState,
    pub move_dir: HDirection,
    pub position: Vec2,
    pub velocity: Vec2,
    pub target_pos: Vec2,
    pub pause_timer: i64,
    pub hitbox: Rect,
    pub animation_timer: i64,
}

/// Level flight in a direction.
pub open spec fn cruise(dir: HDirection) -> Vec2 {
    match dir {
        HDirection::Left => Vec2 { x: (-BIRD_SPEED) as i64, y: 0 },
        HDirection::Right => Vec2 { x: BIRD_SPEED, y: 0 },
    }
}

/// The pause before a dive: the prediction time less the time to cover the
/// horizontal distance `dx`, varied by `jitter`.
pub open spec fn pause_for(dx: int, jitter: i64) -> i64 {
    clamp_i64(BIRD_PREDICTION_TIME - (if dx >= 0 { dx } else { -dx }) / 120 + jitter) as i64
}

impl Bird {
    /// A bird entering from the side opposite to its direction of travel.
    pub open spec fn spawned(y_pos: i64, move_dir: HDirection, screen_width: i64) -> Bird {
        let x_pos = match move_dir {
            HDirection::Left => clamp_i64(screen_width + BIRD_MARGIN) as i64,
            HDirection::Right => (-BIRD_MARGIN) as i64,
        };
        Bird {
            state: BirdState::Arrival,
            move_dir,
            position: Vec2 { x: x_pos, y: y_pos },
            velocity: cruise(move_dir),
            target_pos: Vec2 { x: 0, y: 0 },
            pause_timer: 0,
            hitbox: Rect { x: x_pos, y: y_pos, w: BIRD_SIZE, h: BIRD_SIZE },
            animation_timer: 0,
        }
    }

    /// The bird has come far enough onto the screen.
    pub open spec fn in_h_pos(self, screen_width: i64) -> bool {
        match self.move_dir {
            HDirection::Left => self.position.x < screen_width - BIRD_SIZE,
            HDirection::Right => self.position.x > BIRD_SIZE,
        }
    }

    /// The bird is above the player.
    pub open spec fn in_v_pos(self, player: Player) -> bool {
        player.position.y > self.position.y
    }

    /// Whether this frame makes an arriving bird take aim.
    pub open spec fn takes_aim(self, player: Player, screen_width: i64) -> bool {
        self.state == BirdState::Arrival && self.in_h_pos(screen_width) && self.in_v_pos(player)
    }

    /// The bird as it takes aim: it targets where the player will be, starts
    /// to descend, and sets its pause.
    pub open spec fn aimed(self, player: Player, jitter: i64) -> Bird {
        let target_pos = player.position.plus(player.velocity.over(BIRD_PREDICTION_TIME));
        Bird {
            state: BirdState::Target,
            target_pos,
            velocity: Vec2 { x: 0, y: BIRD_SPEED },
            pause_timer: pause_for(target_pos.x - self.position.x, jitter),
            ..self
        }
    }

    /// The bird as it leaves in its direction of travel.
    pub open spec fn released(self) -> Bird {
        Bird { state: BirdState::Flight, velocity: cruise(self.move_dir), ..self }
    }

    /// First part of a frame: the state decides the velocity and may change.
    pub open spec fn decided(self, player: Player, elapsed: i64, screen_width: i64, jitter: i64) -> Bird {
        match self.state {
            BirdState::Arrival => {
                if self.in_h_pos(screen_width) && self.in_v_pos(player) {
                    self.aimed(player, jitter)
                } else if self.in_h_pos(screen_width) {
                    Bird { velocity: Vec2 { x: 0, y: (-BIRD_SPEED) as i64 }, ..self }
                } else if self.in_v_pos(player) {
                    Bird { velocity: Vec2 { x: self.velocity.x, y: 0 }, ..self }
                } else {
                    self
                }
            },
            BirdState::Target => {
                let held = if self.position.y >= self.target_pos.y {
                    Bird { velocity: Vec2 { x: self.velocity.x, y: 0 }, ..self }
                } else {
                    self
                };
                let waited = Bird {
                    pause_timer: clamp_i64(self.pause_timer - elapsed) as i64,
                    ..held
                };
                if waited.pause_timer < 0 {
                    waited.released()
                } else {
                    waited
                }
            },
            BirdState::Flight => self,
        }
    }

    /// Second part of a frame: the bird moves and its hitbox follows.
    pub open spec fn moved(self, elapsed: i64) -> Bird {
        let position = self.position.plus(self.velocity.over(elapsed));
        Bird {
            animation_timer: clamp_i64(self.animation_timer + elapsed) as i64,
            position,
            hitbox: centred(position, BIRD_SPRITE, BIRD_SPRITE, self.hitbox.w, self.hitbox.h),
            ..self
        }
    }

    /// The bird after one frame; `jitter` matters only when it takes aim.
    pub open spec fn updated(self, player: Player, elapsed: i64, screen_width: i64, jitter: i64) -> Bird {
        self.decided(player, elapsed, screen_width, jitter).moved(elapsed)
    }

    /// What one frame may make of the bird: its update for some variation
    /// of the pause within `BIRD_JITTER`.
    pub open spec fn updates_to(self, player: Player, elapsed: i64, screen_width: i64, next: Bird) -> bool {
        exists|jitter: i64|
            -BIRD_JITTER <= jitter <= BIRD_JITTER && next == #[trigger] self.updated(
                player,
                elapsed,
                screen_width,
                jitter,
            )
    }

    /// The bird after hitting something: it turns round and flees upward.
    pub open spec fn bumped(self) -> Bird {
        match self.move_dir {
            HDirection::Left => Bird {
                velocity: Vec2 { x: BIRD_SPEED, y: (-BIRD_SPEED) as i64 },
                move_dir: HDirection::Right,
                state: BirdState::Flight,
                ..self
            },
            HDirection::Right => Bird {
                velocity: Vec2 { x: (-BIRD_SPEED) as i64, y: (-BIRD_SPEED) as i64 },
                move_dir: HDirection::Left,
                state: BirdState::Flight,
                ..self
            },
        }
    }

    /// A bird entering from the side opposite to its direction of travel.
    pub fn spawn(y_pos: i64, move_dir: HDirection, screen_width: i64) -> (bird: Bird)
        ensures
            bird == Bird::spawned(y_pos, move_dir, screen_width),
    {
        let (x_pos, velocity) = match move_dir {
            HDirection::Left => (add_sat(screen_width, BIRD_MARGIN), Vec2::new(-BIRD_SPEED, 0)),
            HDirection::Right => (-BIRD_MARGIN, Vec2::new(BIRD_SPEED, 0)),
        };
        Bird {
            state: BirdState::Arrival,
            move_dir,
            position: Vec2::new(x_pos, y_pos),
            velocity,
            target_pos: Vec2::zero(),
            pause_timer: 0,
            hitbox: Rect::new(x_pos, y_pos, BIRD_SIZE, BIRD_SIZE),
            animation_timer: 0,
        }
    }

    fn horizontally_placed(&self, screen_width: i64) -> (b: bool)
        ensures
            b == self.in_h_pos(screen_width),
    {
        match self.move_dir {
            HDirection::Left => (self.position.x as i128) < screen_width as i128 - BIRD_SIZE as i128,
            HDirection::Right => self.position.x > BIRD_SIZE,
        }
    }

    /// Advances the bird by one frame. A bird that takes aim in this frame
    /// varies its pause by a random amount within `BIRD_JITTER`.
    pub fn update(&mut self, player: &Player, elapsed: i64, screen_width: i64)
        ensures
            old(self).updates_to(*player, elapsed, screen_width, *final(self)),
            !old(self).takes_aim(*player, screen_width) ==> *final(self) == old(self).updated(
                *player,
                elapsed,
                screen_width,
                0,
            ),
    {
        let aims: bool = matches!(self.state, BirdState::Arrival) && self.horizontally_placed(
            screen_width,
        ) && player.position.y > self.position.y;
        let jitter: i64 = if aims {
            draw_between(-BIRD_JITTER, BIRD_JITTER)
        } else {
            0
        };
        self.update_with(player, elapsed, screen_width, jitter);
    }

    /// Advances the bird by one frame, with the variation of the pause given.
    pub fn update_with(&mut self, player: &Player, elapsed: i64, screen_width: i64, jitter: i64)
        ensures
            *final(self) == old(self).updated(*player, elapsed, screen_width, jitter),
    {
        match self.state {
            BirdState::Arrival => {
                let in_h_pos: bool = self.horizontally_placed(screen_width);
                let in_v_pos: bool = player.position.y > self.position.y;
                match (in_h_pos, in_v_pos) {
                    (true, true) => self.enter_target(player, jitter),
                    (true, false) => self.velocity = Vec2::new(0, -BIRD_SPEED),
                    (false, true) => self.velocity.y = 0,
                    (false, false) => {},
                }
            },
            BirdState::Target => {
                if self.position.y >= self.target_pos.y {
                    self.velocity.y = 0;
                }
                self.pause_timer = sub_sat(self.pause_timer, elapsed);
                if self.pause_timer < 0 {
                    self.enter_flight();
                }
            },
            BirdState::Flight => {},
        }
        self.animation_timer = add_sat(self.animation_timer, elapsed);
        self.position = self.position.add_vec(self.velocity.scaled(elapsed));
        self.update_hitbox();
    }

    fn update_hitbox(&mut self)
        ensures
            *final(self) == (Bird {
                hitbox: centred(
                    old(self).position,
                    BIRD_SPRITE,
                    BIRD_SPRITE,
                    old(self).hitbox.w,
                    old(self).hitbox.h,
                ),
                ..*old(self)
            }),
    {
        self.hitbox = centre_box(
            self.position,
            BIRD_SPRITE,
            BIRD_SPRITE,
            self.hitbox.w,
            self.hitbox.h,
        );
    }

    fn enter_target(&mut self, player: &Player, jitter: i64)
        ensures
            *final(self) == old(self).aimed(*player, jitter),
    {
        self.target_player(player);
        self.velocity = Vec2::new(0, BIRD_SPEED);
        let dx: i128 = self.target_pos.x as i128 - self.position.x as i128;
        let gap: i128 = if dx >= 0 { dx } else { -dx };
        self.pause_timer = clamp_wide(BIRD_PREDICTION_TIME as i128 - gap / 120 + jitter as i128);
        self.state = BirdState::Target;
    }

    fn enter_flight(&mut self)
        ensures
            *final(self) == old(self).released(),
    {
        match self.move_dir {
            HDirection::Left => self.velocity = Vec2::new(-BIRD_SPEED, 0),
            HDirection::Right => self.velocity = Vec2::new(BIRD_SPEED, 0),
        }
        self.state = BirdState::Flight;
    }

    fn target_player(&mut self, player: &Player)
        ensures
            *final(self) == (Bird {
                target_pos: player.position.plus(player.velocity.over(BIRD_PREDICTION_TIME)),
                ..*old(self)
            }),
    {
        self.target_pos = player.position.add_vec(player.velocity.scaled(BIRD_PREDICTION_TIME));
    }

    /// Which of the two wing positions to show: they alternate ten times a
    /// second.
    pub fn wing_frame(&self) -> (frame: u8)
        ensures
            frame == if self.animation_timer < 0 {
                0
            } else {
                (self.animation_timer / 100) % 2
            },
    {
        if self.animation_timer < 0 {
            0
        } else {
            ((self.animation_timer / 100) % 2) as u8
        }
    }

    /// Turns the bird round and sends it away upward, whatever it was doing.
    pub fn collision(&mut self)
        ensures
            *final(self) == old(self).bumped(),
    {
        match self.move_dir {
            HDirection::Left => {
                self.velocity = Vec2::new(BIRD_SPEED, -BIRD_SPEED);
                self.move_dir = HDirection::Right;
            },
            HDirection::Right => {
                self.velocity = Vec2::new(-BIRD_SPEED, -BIRD_SPEED);
                self.move_dir = HDirection::Left;
            },
        }
        self.state = BirdState::Flight;
    }
}

/// A bird passes through its phases in order: an arriving bird goes on
/// arriving or takes aim, an aiming bird goes on aiming or leaves, and a
/// bird that has left stays so, with nothing but its position changing. A
/// collision makes any bird leave at once.
pub proof fn lemma_bird_phases(bird: Bird, player: Player, elapsed: i64, screen_width: i64, jitter: i64)
    ensures
        bird.state == BirdState::Arrival ==> bird.updated(player, elapsed, screen_width, jitter).state
            == if bird.takes_aim(player, screen_width) {
            BirdState::Target
        } else {
            BirdState::Arrival
        },
        bird.state == BirdState::Target ==> bird.updated(player, elapsed, screen_width, jitter).state
            == if bird.pause_timer - elapsed < 0 {
            BirdState::Flight
        } else {
            BirdState::Target
        },
        bird.state == BirdState::Flight ==> bird.updated(player, elapsed, screen_width, jitter)
            == bird.moved(elapsed),
        bird.bumped().state == BirdState::Flight,
        bird.bumped().move_dir != bird.move_dir,
{
}

} // verus!
