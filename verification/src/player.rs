//! The balloonist that the player steers.
use vstd::prelude::*;
use crate::HDirection;
use crate::fling::{centre_box, centred, FlingKind, FlingState, FlingThing};
use crate::geometry::{Rect, Vec2};
use crate::scenes::game_scene::{Inputs, Sound, Sounds};
use crate::units::{add_sat, bound, bound_to, clamp_i64, distance, sub_sat, travel};

verus! {

/// Width and height of the player's sprite.
pub const PLAYER_DIM: (i64, i64) = (64_000, 64_000);

/// Sideways speed in normal flight.
pub const HORIZONTAL_SPEED: i64 = 50_000;

/// Sideways speed during a boost.
pub const BOOSTER_SPEED: i64 = 500_000;

/// How long a boost lasts, and how long the booster then rests.
pub const BOOSTER_TIME: i64 = 250;

/// Extra downward speed while the dive control is held.
pub const DIVE_SPEED: i64 = 200_000;

/// How long a bounce off a flung cloud lasts.
pub const BOUNCE_TIME: i64 = 500;

/// Downward speed gained in each frame of a bounce.
pub const BOUNCE_GRAVITY: i64 = 1_000;

/// How long the player is immune after taking damage.
pub const INVINCIBLE_TIME: i64 = 500;

/// The greatest number of balloons.
pub const MAX_BALLOONS: usize = 3;

/// The greatest number of boost charges.
pub const MAX_FUEL: usize = 3;

/// What the player is doing.
#[derive(Clone, Copy, PartialEq, Eq, Structural, Debug)]
pub enum PlayerState {
    Normal,
    Booster { dir: HDirection, timer: i64 },
    Landed,
    Bounced { timer: i64 },
}

/// The player.
#[derive(Clone, Copy, PartialEq, Eq, Structural, Debug)]
pub struct Player {
    pub state: PlayerState,
    pub position: Vec2,
    pub velocity: Vec2,
    pub balloons: usize,
    pub hitbox: Rect,
    pub fuel: usize,
    pub boost_cooldown: i64,
    pub invincible: i64,
}

/// Downward speed in normal flight with `balloons` balloons left.
pub open spec fn fall_speed(balloons: usize) -> i64 {
    if balloons == 0 {
        500_000
    } else if balloons == 1 {
        100_000
    } else if balloons == 2 {
        50_000
    } else if balloons == 3 {
        20_000
    } else {
        0
    }
}

/// Sideways speed in normal flight for the held steering controls.
pub open spec fn steer_speed(left: bool, right: bool) -> i64 {
    if right && !left {
        HORIZONTAL_SPEED
    } else if left && !right {
        (-HORIZONTAL_SPEED) as i64
    } else {
        0
    }
}

/// The direction of the boost that the held controls ask for, if exactly one
/// boost control is held.
pub open spec fn boost_request(inputs: Inputs) -> Option<HDirection> {
    if inputs.boost_left && !inputs.boost_right {
        Some(HDirection::Left)
    } else if inputs.boost_right && !inputs.boost_left {
        Some(HDirection::Right)
    } else {
        None
    }
}

impl Player {
    /// Balloons and fuel are within their limits.
    pub open spec fn wf(self) -> bool {
        self.balloons <= MAX_BALLOONS && self.fuel <= MAX_FUEL
    }

    /// The player as a session begins.
    pub open spec fn fresh(start: Vec2) -> Player {
        Player {
            state: PlayerState::Normal,
            position: start,
            velocity: Vec2 { x: 0, y: 0 },
            balloons: MAX_BALLOONS,
            hitbox: Rect {
                x: clamp_i64(start.x + 8_000) as i64,
                y: clamp_i64(start.y + 8_000) as i64,
                w: 48_000,
                h: 48_000,
            },
            fuel: MAX_FUEL,
            boost_cooldown: 0,
            invincible: 0,
        }
    }

    /// The booster is charged, rested, and the player is free to use it.
    pub open spec fn boost_ready(self) -> bool {
        &&& self.fuel > 0
        &&& self.boost_cooldown <= 0
        &&& !(self.state is Booster)
        &&& !(self.state is Landed)
    }

    /// Whether this frame starts a boost.
    pub open spec fn boost_starts(self, inputs: Inputs) -> bool {
        self.boost_ready() && boost_request(inputs) is Some
    }

    /// First part of a frame: a boost starts, or the booster rests.
    pub open spec fn boost_step(self, inputs: Inputs, elapsed: i64) -> Player {
        if self.boost_ready() {
            match boost_request(inputs) {
                Some(dir) => Player {
                    fuel: (self.fuel - 1) as usize,
                    boost_cooldown: BOOSTER_TIME,
                    state: PlayerState::Booster { dir, timer: 0 },
                    ..self
                },
                None => self,
            }
        } else {
            Player { boost_cooldown: clamp_i64(self.boost_cooldown - elapsed) as i64, ..self }
        }
    }

    /// Velocity in normal flight.
    pub open spec fn normal_velocity(self, inputs: Inputs) -> Vec2 {
        Vec2 {
            x: steer_speed(inputs.left, inputs.right),
            y: (fall_speed(self.balloons) + if inputs.down { DIVE_SPEED as int } else { 0 }) as i64,
        }
    }

    /// Second part of a frame: the current state sets the velocity and may end.
    pub open spec fn state_step(self, inputs: Inputs, elapsed: i64) -> Player {
        match self.state {
            PlayerState::Normal => Player { velocity: self.normal_velocity(inputs), ..self },
            PlayerState::Booster { dir, timer } => {
                let timer = clamp_i64(timer + elapsed) as i64;
                Player {
                    velocity: Vec2 {
                        x: match dir {
                            HDirection::Left => (-BOOSTER_SPEED) as i64,
                            HDirection::Right => BOOSTER_SPEED,
                        },
                        y: 0,
                    },
                    state: if timer > BOOSTER_TIME {
                        PlayerState::Normal
                    } else {
                        PlayerState::Booster { dir, timer }
                    },
                    ..self
                }
            },
            PlayerState::Landed => Player { velocity: Vec2 { x: 0, y: 0 }, ..self },
            PlayerState::Bounced { timer } => {
                let timer = clamp_i64(timer - elapsed) as i64;
                Player {
                    velocity: Vec2 {
                        x: self.velocity.x,
                        y: clamp_i64(self.velocity.y + BOUNCE_GRAVITY) as i64,
                    },
                    state: if timer < 0 {
                        PlayerState::Normal
                    } else {
                        PlayerState::Bounced { timer }
                    },
                    ..self
                }
            },
        }
    }

    /// Last part of a frame: the player moves, kept within the screen's
    /// width, and the immunity runs down.
    pub open spec fn motion_step(self, elapsed: i64, screen_width: i64) -> Player {
        let position = Vec2 {
            x: bound(
                clamp_i64(self.position.x + travel(self.velocity.x as int, elapsed as int)),
                0,
                clamp_i64(screen_width - PLAYER_DIM.0),
            ) as i64,
            y: clamp_i64(self.position.y + travel(self.velocity.y as int, elapsed as int)) as i64,
        };
        Player {
            position,
            invincible: clamp_i64(self.invincible - elapsed) as i64,
            hitbox: centred(position, PLAYER_DIM.0, PLAYER_DIM.1, self.hitbox.w, self.hitbox.h),
            ..self
        }
    }

    /// The player after one frame of `elapsed` milliseconds.
    pub open spec fn updated(self, inputs: Inputs, elapsed: i64, screen_width: i64) -> Player {
        self.boost_step(inputs, elapsed).state_step(inputs, elapsed).motion_step(
            elapsed,
            screen_width,
        )
    }

    /// The player after a hit: while immune nothing changes.
    pub open spec fn damaged(self) -> Player {
        if self.invincible <= 0 {
            Player {
                balloons: if self.balloons == 0 { 0 } else { (self.balloons - 1) as usize },
                invincible: INVINCIBLE_TIME,
                ..self
            }
        } else {
            self
        }
    }

    /// The player after touching `thing`.
    pub open spec fn touched(self, thing: FlingThing) -> Player {
        match thing.kind {
            FlingKind::Cloud => if thing.state == FlingState::Flung {
                Player {
                    velocity: self.velocity.plus(thing.velocity),
                    state: PlayerState::Bounced { timer: BOUNCE_TIME },
                    ..self
                }
            } else {
                self
            },
            FlingKind::GoldCloud => Player { fuel: MAX_FUEL, ..self },
        }
    }

    /// The player at the start of a session: three balloons, full fuel.
    pub fn new(starting_position: Vec2) -> (player: Player)
        ensures
            player == Player::fresh(starting_position),
            player.wf(),
    {
        Player {
            state: PlayerState::Normal,
            position: starting_position,
            velocity: Vec2::zero(),
            balloons: MAX_BALLOONS,
            hitbox: Rect::new(
                add_sat(starting_position.x, 8_000),
                add_sat(starting_position.y, 8_000),
                48_000,
                48_000,
            ),
            fuel: MAX_FUEL,
            boost_cooldown: 0,
            invincible: 0,
        }
    }

    /// Advances the player by one frame. The boost cue fires exactly when a
    /// boost starts.
    pub fn update(&mut self, inputs: &Inputs, sounds: &mut Sounds, elapsed: i64, screen_width: i64)
        ensures
            *final(self) == old(self).updated(*inputs, elapsed, screen_width),
            old(self).wf() ==> final(self).wf(),
            *final(sounds) == if old(self).boost_starts(*inputs) {
                old(sounds).with(Sound::Boost)
            } else {
                *old(sounds)
            },
            old(self).state is Normal && !old(self).boost_starts(*inputs) ==> {
                &&& final(self).state is Normal
                &&& final(self).velocity.x == steer_speed(inputs.left, inputs.right)
                &&& final(self).velocity.y == fall_speed(old(self).balloons) + if inputs.down {
                    DIVE_SPEED as int
                } else {
                    0
                }
            },
    {
        self.boost_update(inputs, sounds, elapsed);
        match self.state {
            PlayerState::Normal => self.normal_update(inputs, elapsed),
            PlayerState::Booster { .. } => self.booster_update(inputs, elapsed),
            PlayerState::Landed => self.velocity = Vec2::new(0, 0),
            PlayerState::Bounced { timer } => {
                let left: i64 = sub_sat(timer, elapsed);
                self.velocity.y = add_sat(self.velocity.y, BOUNCE_GRAVITY);
                if left < 0 {
                    self.state = PlayerState::Normal;
                } else {
                    self.state = PlayerState::Bounced { timer: left };
                }
            },
        }
        let x: i64 = add_sat(self.position.x, distance(self.velocity.x, elapsed));
        self.position.x = bound_to(x, 0, sub_sat(screen_width, PLAYER_DIM.0));
        self.position.y = add_sat(self.position.y, distance(self.velocity.y, elapsed));
        self.invincible = sub_sat(self.invincible, elapsed);
        self.update_hitbox();
    }

    /// Starts a boost if one is asked for and allowed; otherwise lets the
    /// booster rest.
    fn boost_update(&mut self, inputs: &Inputs, sounds: &mut Sounds, elapsed: i64)
        ensures
            *final(self) == old(self).boost_step(*inputs, elapsed),
            old(self).wf() ==> final(self).wf(),
            *final(sounds) == if old(self).boost_starts(*inputs) {
                old(sounds).with(Sound::Boost)
            } else {
                *old(sounds)
            },
    {
        if self.fuel > 0 && self.boost_cooldown <= 0 && !matches!(
            self.state,
            PlayerState::Booster { .. }
        ) && !matches!(self.state, PlayerState::Landed) {
            match (inputs.boost_left, inputs.boost_right) {
                (true, false) => {
                    sounds.fire(Sound::Boost);
                    self.fuel = self.fuel - 1;
                    self.boost_cooldown = BOOSTER_TIME;
                    self.state = PlayerState::Booster { dir: HDirection::Left, timer: 0 };
                },
                (false, true) => {
                    sounds.fire(Sound::Boost);
                    self.fuel = self.fuel - 1;
                    self.boost_cooldown = BOOSTER_TIME;
                    self.state = PlayerState::Booster { dir: HDirection::Right, timer: 0 };
                },
                _ => {},
            }
        } else {
            self.boost_cooldown = sub_sat(self.boost_cooldown, elapsed);
        }
    }

    /// The step of normal flight: the downward speed becomes the fall speed
    /// of the balloons left, and 200 pixels per second more while the dive
    /// control is held; the sideways speed follows the steering controls.
    /// The velocity before the step does not matter, and nothing else
    /// changes.
    pub fn normal_update(&mut self, inputs: &Inputs, _elapsed: i64)
        ensures
            *final(self) == (Player { velocity: old(self).normal_velocity(*inputs), ..*old(self) }),
            final(self).velocity.y == fall_speed(old(self).balloons) + if inputs.down {
                DIVE_SPEED as int
            } else {
                0
            },
            final(self).velocity.x == steer_speed(inputs.left, inputs.right),
            old(self).state is Normal ==> *final(self) == old(self).state_step(*inputs, _elapsed),
    {
        let mut fall: i64 = match self.balloons {
            0 => 500_000,
            1 => 100_000,
            2 => 50_000,
            3 => 20_000,
            _ => 0,
        };
        if inputs.down {
            fall = fall + DIVE_SPEED;
        }
        self.velocity.y = fall;
        match (inputs.left, inputs.right) {
            (false, true) => self.velocity.x = HORIZONTAL_SPEED,
            (true, false) => self.velocity.x = -HORIZONTAL_SPEED,
            _ => self.velocity.x = 0,
        }
    }

    fn booster_update(&mut self, _inputs: &Inputs, elapsed: i64)
        requires
            old(self).state is Booster,
        ensures
            *final(self) == old(self).state_step(*_inputs, elapsed),
    {
        if let PlayerState::Booster { dir, timer } = self.state {
            match dir {
                HDirection::Left => self.velocity.x = -BOOSTER_SPEED,
                HDirection::Right => self.velocity.x = BOOSTER_SPEED,
            }
            let run: i64 = add_sat(timer, elapsed);
            self.velocity.y = 0;
            if run > BOOSTER_TIME {
                self.state = PlayerState::Normal;
            } else {
                self.state = PlayerState::Booster { dir, timer: run };
            }
        }
    }

    fn update_hitbox(&mut self)
        ensures
            *final(self) == (Player {
                hitbox: centred(
                    old(self).position,
                    PLAYER_DIM.0,
                    PLAYER_DIM.1,
                    old(self).hitbox.w,
                    old(self).hitbox.h,
                ),
                ..*old(self)
            }),
    {
        self.hitbox = centre_box(
            self.position,
            PLAYER_DIM.0,
            PLAYER_DIM.1,
            self.hitbox.w,
            self.hitbox.h,
        );
    }

    /// Ends the flight: the player stands on the ground.
    pub fn land(&mut self)
        ensures
            *final(self) == (Player { state: PlayerState::Landed, ..*old(self) }),
    {
        self.state = PlayerState::Landed;
    }

    /// Takes one balloon and starts the immunity, unless the player is
    /// immune. The hit cue fires exactly when damage is taken.
    pub fn take_damage(&mut self, sounds: &mut Sounds)
        ensures
            *final(self) == old(self).damaged(),
            old(self).wf() ==> final(self).wf(),
            *final(sounds) == if old(self).invincible <= 0 {
                old(sounds).with(Sound::Hit)
            } else {
                *old(sounds)
            },
    {
        if self.invincible <= 0 {
            sounds.fire(Sound::Hit);
            self.balloons = self.balloons.saturating_sub(1);
            self.invincible = INVINCIBLE_TIME;
        }
    }

    /// A golden cloud refills the fuel; a plain cloud in flung motion bounces
    /// the player; a plain cloud at rest does nothing.
    pub fn thing_collision(&mut self, thing: &FlingThing)
        ensures
            *final(self) == old(self).touched(*thing),
            old(self).wf() ==> final(self).wf(),
    {
        match thing.kind {
            FlingKind::Cloud => {
                if thing.flung() {
                    self.velocity = self.velocity.add_vec(thing.velocity);
                    self.state = PlayerState::Bounced { timer: BOUNCE_TIME };
                }
            },
            FlingKind::GoldCloud => {
                self.fuel = MAX_FUEL;
            },
        }
    }

    /// Whether the player is immune to damage.
    pub fn is_invincible(&self) -> (b: bool)
        ensures
            b == (self.invincible > 0),
    {
        self.invincible > 0
    }

    /// The direction of the boost in progress, if there is one.
    pub fn boosting(&self) -> (dir: Option<HDirection>)
        ensures
            dir == match self.state {
                PlayerState::Booster { dir, .. } => Some(dir),
                _ => None,
            },
    {
        match self.state {
            PlayerState::Booster { dir, .. } => Some(dir),
            _ => None,
        }
    }

    /// A bird hits the player: damage is taken.
    pub fn bird_collision(&mut self, sounds: &mut Sounds)
        ensures
            *final(self) == old(self).damaged(),
            old(self).wf() ==> final(self).wf(),
            *final(sounds) == if old(self).invincible <= 0 {
                old(sounds).with(Sound::Hit)
            } else {
                *old(sounds)
            },
    {
        self.take_damage(sounds);
    }

    /// The thunder cloud hits the player: damage is taken.
    pub fn lightning_collision(&mut self, sounds: &mut Sounds)
        ensures
            *final(self) == old(self).damaged(),
            old(self).wf() ==> final(self).wf(),
            *final(sounds) == if old(self).invincible <= 0 {
                old(sounds).with(Sound::Hit)
            } else {
                *old(sounds)
            },
    {
        self.take_damage(sounds);
    }
}

/// The fall speed in normal flight is 500, 100, 50 and 20 pixels per second
/// for none to three balloons: each balloon more falls strictly slower.
pub proof fn lemma_fall_speed_steps(a: usize, b: usize)
    requires
        a <= b <= MAX_BALLOONS,
    ensures
        fall_speed(a) >= fall_speed(b),
        a < b ==> fall_speed(a) > fall_speed(b),
        fall_speed(0) == 500_000,
        fall_speed(1) == 100_000,
        fall_speed(2) == 50_000,
        fall_speed(3) == 20_000,
{
}

/// In normal flight a frame sets the downward speed to the fall speed of
/// the balloons left, and the dive control adds exactly 200 pixels per
/// second, whatever else is held and whatever the speed was before: a
/// second step with the same controls changes nothing.
pub proof fn lemma_dive_adds(player: Player, inputs: Inputs, elapsed: i64)
    requires
        player.state is Normal,
    ensures
        !inputs.down ==> player.state_step(inputs, elapsed).velocity.y == fall_speed(
            player.balloons,
        ),
        inputs.down ==> player.state_step(inputs, elapsed).velocity.y == fall_speed(
            player.balloons,
        ) + DIVE_SPEED,
        player.state_step(inputs, elapsed).state_step(inputs, elapsed) == player.state_step(
            inputs,
            elapsed,
        ),
{
}

/// Of two players in normal flight under the same controls, the one with
/// fewer balloons falls strictly faster, with the dive control or without.
pub proof fn lemma_fewer_balloons_fall_faster(
    fewer: Player,
    more: Player,
    inputs: Inputs,
    elapsed: i64,
)
    requires
        fewer.state is Normal,
        more.state is Normal,
        fewer.balloons < more.balloons <= MAX_BALLOONS,
    ensures
        fewer.state_step(inputs, elapsed).velocity.y > more.state_step(inputs, elapsed).velocity.y,
        fewer.state_step(inputs, elapsed).velocity.x == more.state_step(inputs, elapsed).velocity.x,
{
}

/// A whole frame of normal flight in which no boost starts leaves the
/// player in normal flight at the fall speed of the balloons left, with 200
/// pixels per second more while the dive control is held.
pub proof fn lemma_normal_frame_speed(player: Player, inputs: Inputs, elapsed: i64, screen_width: i64)
    requires
        player.state is Normal,
        !player.boost_starts(inputs),
    ensures
        player.updated(inputs, elapsed, screen_width).state is Normal,
        player.updated(inputs, elapsed, screen_width).velocity.y == fall_speed(player.balloons)
            + if inputs.down {
            DIVE_SPEED as int
        } else {
            0
        },
{
}

/// Without fuel, during a boost, after landing, or with both boost controls
/// held, no boost starts: state and fuel stay as they are and no cue fires.
pub proof fn lemma_boost_refused(player: Player, inputs: Inputs, elapsed: i64)
    requires
        player.fuel == 0 || player.state is Booster || player.state is Landed || (inputs.boost_left
            && inputs.boost_right),
    ensures
        !player.boost_starts(inputs),
        player.boost_step(inputs, elapsed).state == player.state,
        player.boost_step(inputs, elapsed).fuel == player.fuel,
{
}

/// A boost that starts takes exactly one unit of fuel and enters the boost
/// state, in the direction asked for, with its timer at zero.
pub proof fn lemma_boost_accepted(player: Player, inputs: Inputs, elapsed: i64)
    requires
        player.boost_starts(inputs),
    ensures
        player.boost_step(inputs, elapsed).fuel == player.fuel - 1,
        player.boost_step(inputs, elapsed).state == (PlayerState::Booster {
            dir: boost_request(inputs)->0,
            timer: 0,
        }),
        inputs.boost_left ==> boost_request(inputs) == Some(HDirection::Left),
        inputs.boost_right ==> boost_request(inputs) == Some(HDirection::Right),
{
}

/// No frame makes a landed player leave the ground, move, or boost.
pub proof fn lemma_landed_is_terminal(player: Player, inputs: Inputs, elapsed: i64, screen_width: i64)
    requires
        player.state is Landed,
        0 <= player.position.x <= screen_width - PLAYER_DIM.0,
    ensures
        player.updated(inputs, elapsed, screen_width).state is Landed,
        player.updated(inputs, elapsed, screen_width).velocity == (Vec2 { x: 0, y: 0 }),
        player.updated(inputs, elapsed, screen_width).position == player.position,
        player.updated(inputs, elapsed, screen_width).fuel == player.fuel,
        player.updated(inputs, elapsed, screen_width).balloons == player.balloons,
{
}

/// A second hit straight after a first takes nothing more, and a hit never
/// takes more than one balloon.
pub proof fn lemma_damage_once(player: Player)
    ensures
        player.damaged().damaged() == player.damaged(),
        player.balloons - 1 <= player.damaged().balloons <= player.balloons,
        player.damaged().balloons >= 0,
{
}

/// A hit on a player who is not immune starts the full immunity, and a
/// second hit after a frame shorter than the immunity takes no balloon.
pub proof fn lemma_damage_once_within_window(
    player: Player,
    inputs: Inputs,
    elapsed: i64,
    screen_width: i64,
)
    requires
        player.invincible <= 0,
        elapsed < INVINCIBLE_TIME,
    ensures
        player.damaged().invincible == INVINCIBLE_TIME,
        player.damaged().updated(inputs, elapsed, screen_width).damaged().balloons
            == player.damaged().balloons,
{
}

} // verus!
