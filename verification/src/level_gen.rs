//! Timed spawning of birds and thunder clouds, and the layout of the clouds
//! at the start of a level.
use vstd::prelude::*;
use crate::HDirection;
use crate::bird::Bird;
use crate::camera::Camera;
use crate::chance::{draw_between, draw_choice, drawable, DRAW_LIMIT};
use crate::fling::{FlingKind, FlingThing};
use crate::geometry::Vec2;
use crate::lightning::Lightning;
use crate::player::Player;
use crate::units::{add_sat, bound_to, clamp_i64, sub_sat};

verus! {

/// The spawn delay of birds varies by up to this much either way.
pub const BIRD_DELAY_JITTER: i64 = 1_000;

/// The spawn delay of thunder clouds varies by up to this much either way.
pub const LIGHTNING_DELAY_JITTER: i64 = 2_000;

/// Height at which the layout of clouds starts.
pub const FIRST_CLOUD_HEIGHT: i64 = 50_000;

/// No cloud is laid out from a height within this margin of the ground.
pub const GROUND_MARGIN: i64 = 200_000;

/// Clouds keep this far from the sides of the screen.
pub const SIDE_MARGIN: i64 = 10_000;

/// The least and the greatest descent from one cloud to the next.
pub const CLOUD_STEP: (i64, i64) = (50_000, 150_000);

/// How hard a level is.
#[derive(Clone, Copy, PartialEq, Eq, Structural, Debug)]
pub enum Difficulty {
    Normal,
    Hard,
}

/// The two spawn timers of a level.
#[derive(Clone, Copy, PartialEq, Eq, Structural, Debug)]
pub struct Generator {
    pub bird_timer: i64,
    pub lightning_timer: i64,
    pub time_between_birds: i64,
    pub time_between_lightning: i64,
}

/// The random choices that one frame of spawning may use.
#[derive(Clone, Copy, PartialEq, Eq, Structural, Debug)]
pub struct SpawnRolls {
    /// Height at which a bird appears.
    pub bird_y: i64,
    /// Decides the side from which a bird comes.
    pub bird_side: u32,
    /// Variation of the delay until the next bird.
    pub bird_delay: i64,
    /// Variation of the delay until the next thunder cloud.
    pub lightning_delay: i64,
}

/// The direction of travel that a random number chooses.
pub open spec fn side_of(roll: u32) -> HDirection {
    if roll % 2 == 0 {
        HDirection::Left
    } else {
        HDirection::Right
    }
}

/// The kind of cloud that a random number chooses: one in five is golden.
pub open spec fn kind_of(roll: u32) -> FlingKind {
    if roll % 5 == 0 {
        FlingKind::GoldCloud
    } else {
        FlingKind::Cloud
    }
}

/// The least height at which a bird may appear: just below the player.
pub open spec fn bird_low(player: Player) -> i64 {
    clamp_i64(player.position.y + 20_000) as i64
}

/// The other limit of a bird's height: one screen's width below the
/// camera's target.
pub open spec fn bird_high(camera: Camera) -> i64 {
    clamp_i64(camera.target.y + camera.screen.x) as i64
}

/// Where a thunder cloud appears: centred over the player, one screen's
/// height above the top of the view.
pub open spec fn lightning_place(camera: Camera, player: Player) -> Vec2 {
    Vec2 {
        x: clamp_i64(player.position.x - 64_000) as i64,
        y: clamp_i64(camera.spec_top() - camera.screen.y) as i64,
    }
}

impl SpawnRolls {
    /// Each choice lies in the range it is drawn from.
    pub open spec fn fit(self, camera: Camera, player: Player) -> bool {
        &&& drawable(bird_low(player)) <= self.bird_y <= drawable(bird_high(camera)) || drawable(
            bird_high(camera),
        ) <= self.bird_y <= drawable(bird_low(player))
        &&& -BIRD_DELAY_JITTER <= self.bird_delay <= BIRD_DELAY_JITTER
        &&& -LIGHTNING_DELAY_JITTER <= self.lightning_delay <= LIGHTNING_DELAY_JITTER
    }
}

impl Generator {
    /// The timers as a level begins.
    pub open spec fn fresh(difficulty: Difficulty) -> Generator {
        match difficulty {
            Difficulty::Normal => Generator {
                bird_timer: 6_000,
                lightning_timer: 12_000,
                time_between_birds: 6_000,
                time_between_lightning: 12_000,
            },
            Difficulty::Hard => Generator {
                bird_timer: 3_000,
                lightning_timer: 6_000,
                time_between_birds: 3_000,
                time_between_lightning: 6_000,
            },
        }
    }

    /// A bird is spawned in a frame that runs its timer below zero.
    pub open spec fn bird_due(self, elapsed: i64) -> bool {
        clamp_i64(self.bird_timer - elapsed) < 0
    }

    /// A thunder cloud is spawned in a frame that runs its timer below zero
    /// while no other cloud exists.
    pub open spec fn lightning_due(self, elapsed: i64, occupied: bool) -> bool {
        clamp_i64(self.lightning_timer - elapsed) < 0 && !occupied
    }

    /// The timers after a frame: each runs down, and is set anew when its
    /// spawn takes place.
    pub open spec fn after(self, elapsed: i64, occupied: bool, rolls: SpawnRolls) -> Generator {
        Generator {
            bird_timer: if self.bird_due(elapsed) {
                clamp_i64(self.time_between_birds + rolls.bird_delay) as i64
            } else {
                clamp_i64(self.bird_timer - elapsed) as i64
            },
            lightning_timer: if self.lightning_due(elapsed, occupied) {
                clamp_i64(self.time_between_lightning + rolls.lightning_delay) as i64
            } else {
                clamp_i64(self.lightning_timer - elapsed) as i64
            },
            ..self
        }
    }

    /// What one frame of spawning makes of the timers, the birds and the
    /// slot for the thunder cloud, for given random choices.
    pub open spec fn generated(
        self,
        camera: Camera,
        player: Player,
        birds: Seq<Bird>,
        lightning: Option<Lightning>,
        elapsed: i64,
        rolls: SpawnRolls,
        next: Generator,
        next_birds: Seq<Bird>,
        next_lightning: Option<Lightning>,
    ) -> bool {
        &&& next == self.after(elapsed, lightning is Some, rolls)
        &&& next_birds == if self.bird_due(elapsed) {
            birds.push(Bird::spawned(rolls.bird_y, side_of(rolls.bird_side), camera.screen.x))
        } else {
            birds
        }
        &&& next_lightning == if self.lightning_due(elapsed, lightning is Some) {
            Some(Lightning::fresh(lightning_place(camera, player)))
        } else {
            lightning
        }
    }

    /// The timers as a level begins: each set to its period.
    pub fn new(difficulty: Difficulty) -> (generator: Generator)
        ensures
            generator == Generator::fresh(difficulty),
    {
        let (time_between_birds, time_between_lightning): (i64, i64) = match difficulty {
            Difficulty::Normal => (6_000, 12_000),
            Difficulty::Hard => (3_000, 6_000),
        };
        Generator {
            bird_timer: time_between_birds,
            lightning_timer: time_between_lightning,
            time_between_birds,
            time_between_lightning,
        }
    }

    /// Runs both timers by one frame and spawns what is due, drawing the
    /// random choices that the spawns need.
    pub fn generate(
        &mut self,
        camera: &Camera,
        player: &Player,
        birds: &mut Vec<Bird>,
        lightning: &mut Option<Lightning>,
        elapsed: i64,
    )
        ensures
            exists|rolls: SpawnRolls|
                rolls.fit(*camera, *player) && #[trigger] old(self).generated(
                    *camera,
                    *player,
                    old(birds)@,
                    *old(lightning),
                    elapsed,
                    rolls,
                    *final(self),
                    final(birds)@,
                    *final(lightning),
                ),
    {
        let low: i64 = add_sat(player.position.y, 20_000);
        let high: i64 = add_sat(camera.target.y, camera.screen.x);
        let mut rolls = SpawnRolls {
            bird_y: bound_to(low, -DRAW_LIMIT, DRAW_LIMIT),
            bird_side: 0,
            bird_delay: 0,
            lightning_delay: 0,
        };
        if sub_sat(self.bird_timer, elapsed) < 0 {
            rolls.bird_y = draw_between(low, high);
            rolls.bird_side = draw_choice();
            rolls.bird_delay = draw_between(-BIRD_DELAY_JITTER, BIRD_DELAY_JITTER);
        }
        if sub_sat(self.lightning_timer, elapsed) < 0 && lightning.is_none() {
            rolls.lightning_delay = draw_between(-LIGHTNING_DELAY_JITTER, LIGHTNING_DELAY_JITTER);
        }
        self.generate_with(camera, player, birds, lightning, elapsed, &rolls);
    }

    /// Runs both timers by one frame and spawns what is due, with the random
    /// choices given.
    pub fn generate_with(
        &mut self,
        camera: &Camera,
        player: &Player,
        birds: &mut Vec<Bird>,
        lightning: &mut Option<Lightning>,
        elapsed: i64,
        rolls: &SpawnRolls,
    )
        ensures
            old(self).generated(
                *camera,
                *player,
                old(birds)@,
                *old(lightning),
                elapsed,
                *rolls,
                *final(self),
                final(birds)@,
                *final(lightning),
            ),
    {
        self.bird_timer = sub_sat(self.bird_timer, elapsed);
        self.lightning_timer = sub_sat(self.lightning_timer, elapsed);

        if self.bird_timer < 0 {
            let move_dir: HDirection = approach_side(rolls.bird_side);
            birds.push(Bird::spawn(rolls.bird_y, move_dir, camera.screen.x));
            self.bird_timer = add_sat(self.time_between_birds, rolls.bird_delay);
        }
        if self.lightning_timer < 0 && lightning.is_none() {
            let x_pos: i64 = sub_sat(player.position.x, 64_000);
            let y_pos: i64 = sub_sat(camera.top(), camera.screen.y);
            *lightning = Some(Lightning::new(Vec2::new(x_pos, y_pos)));
            self.lightning_timer = add_sat(self.time_between_lightning, rolls.lightning_delay);
        }
    }
}

/// The direction of travel that a random number chooses.
pub fn approach_side(roll: u32) -> (dir: HDirection)
    ensures
        dir == side_of(roll),
{
    if roll % 2 == 0 {
        HDirection::Left
    } else {
        HDirection::Right
    }
}

/// The kind of cloud that a random number chooses.
pub fn cloud_kind(roll: u32) -> (kind: FlingKind)
    ensures
        kind == kind_of(roll),
{
    if roll % 5 == 0 {
        FlingKind::GoldCloud
    } else {
        FlingKind::Cloud
    }
}

/// The height from which cloud `i` of a layout was stepped down.
pub open spec fn height_before(things: Seq<FlingThing>, i: int) -> int {
    if i == 0 {
        FIRST_CLOUD_HEIGHT as int
    } else {
        things[i - 1].position.y as int
    }
}

/// A layout of clouds as a level begins: each cloud is at rest, within the
/// side margins, and one step below the cloud before it; steps are taken
/// exactly while the height is above the ground's margin.
pub open spec fn well_laid(things: Seq<FlingThing>, ground_position: i64, screen_width: i64) -> bool {
    &&& forall|i: int|
        0 <= i < things.len() ==> {
            let t = #[trigger] things[i];
            &&& t == FlingThing::fresh(t.kind, t.position)
            &&& drawable(SIDE_MARGIN) <= t.position.x <= drawable(
                clamp_i64(screen_width - SIDE_MARGIN) as i64,
            ) || drawable(clamp_i64(screen_width - SIDE_MARGIN) as i64) <= t.position.x
                <= drawable(SIDE_MARGIN)
            &&& height_before(things, i) < ground_position - GROUND_MARGIN
            &&& CLOUD_STEP.0 <= t.position.y - height_before(things, i) <= CLOUD_STEP.1
        }
    &&& height_before(things, things.len() as int) >= ground_position - GROUND_MARGIN
}

/// Lays out the clouds of a level, from the top down to the margin above
/// the ground, at random places.
pub fn generate_fling_things(ground_position: i64, screen_width: i64) -> (things: Vec<FlingThing>)
    ensures
        well_laid(things@, ground_position, screen_width),
{
    let mut things: Vec<FlingThing> = Vec::new();
    let mut y_pos: i64 = FIRST_CLOUD_HEIGHT;
    while (y_pos as i128) < ground_position as i128 - GROUND_MARGIN as i128
        invariant
            y_pos == height_before(things@, things@.len() as int),
            forall|i: int|
                0 <= i < things@.len() ==> {
                    let t = #[trigger] things@[i];
                    &&& t == FlingThing::fresh(t.kind, t.position)
                    &&& drawable(SIDE_MARGIN) <= t.position.x <= drawable(
                        clamp_i64(screen_width - SIDE_MARGIN) as i64,
                    ) || drawable(clamp_i64(screen_width - SIDE_MARGIN) as i64) <= t.position.x
                        <= drawable(SIDE_MARGIN)
                    &&& height_before(things@, i) < ground_position - GROUND_MARGIN
                    &&& CLOUD_STEP.0 <= t.position.y - height_before(things@, i) <= CLOUD_STEP.1
                },
        decreases ground_position - y_pos,
    {
        let ghost before = things@;
        let x_pos: i64 = draw_between(SIDE_MARGIN, sub_sat(screen_width, SIDE_MARGIN));
        y_pos = y_pos + draw_between(CLOUD_STEP.0, CLOUD_STEP.1);
        let kind: FlingKind = cloud_kind(draw_choice());
        things.push(FlingThing::new(kind, Vec2::new(x_pos, y_pos)));
        proof {
            assert(forall|i: int| 0 <= i < before.len() ==> things@[i] == before[i]);
            assert(forall|i: int|
                0 <= i <= before.len() ==> height_before(things@, i) == height_before(before, i));
        }
    }
    things
}

/// While a thunder cloud exists the spawner leaves it alone and makes no
/// other, however long its timer has run out; and a frame never spawns more
/// than one bird.
pub proof fn lemma_one_thunder_cloud(
    generator: Generator,
    camera: Camera,
    player: Player,
    birds: Seq<Bird>,
    lightning: Option<Lightning>,
    elapsed: i64,
    rolls: SpawnRolls,
    next: Generator,
    next_birds: Seq<Bird>,
    next_lightning: Option<Lightning>,
)
    requires
        generator.generated(
            camera,
            player,
            birds,
            lightning,
            elapsed,
            rolls,
            next,
            next_birds,
            next_lightning,
        ),
    ensures
        lightning is Some ==> next_lightning == lightning,
        lightning is Some ==> next.lightning_timer == clamp_i64(
            generator.lightning_timer - elapsed,
        ),
        birds.len() <= next_birds.len() <= birds.len() + 1,
        next.time_between_birds == generator.time_between_birds,
        next.time_between_lightning == generator.time_between_lightning,
{
}

} // verus!
