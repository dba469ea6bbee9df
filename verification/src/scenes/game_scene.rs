//! The play screen: one frame of simulation, collisions and despawning.
use vstd::prelude::*;
use vstd::string::*;
use crate::bird::Bird;
use crate::camera::Camera;
use crate::cleanup::{
    birds_kept, birds_swept, sweep_birds, sweep_things, things_kept, things_swept,
};
use crate::collision::{
    any_bird_over, birds_after, birds_after_player, collide_birds_player,
    collide_lightning_player, collide_things_birds, collide_things_player, lightning_over,
    player_after_birds, player_after_lightning, things_after_birds, things_after_player,
    touch_all,
};
use crate::cursor::{Cursor, Pointer};
use crate::fling::FlingThing;
use crate::geometry::{Rect, Vec2};
use crate::level_gen::{generate_fling_things, well_laid, Difficulty, Generator, SpawnRolls};
use crate::lightning::{Lightning, LightningState};
use crate::player::{Player, PlayerState};
use crate::scene::{Scene, SceneAction};
use crate::scenes::end_scene::EndScene;
use crate::units::{add_sat, clamp_i64, div_trunc, sub_sat, trunc_div};

verus! {

/// A logical control, independent of the keys bound to it.
#[derive(Clone, Copy, PartialEq, Eq, Structural, Debug)]
pub enum Input {
    Up,
    Down,
    Left,
    Right,
    BoostLeft,
    BoostRight,
}

/// A sound cue that a frame may fire.
#[derive(Clone, Copy, PartialEq, Eq, Structural, Debug)]
pub enum Sound {
    Hit,
    Lightning,
    Fling,
    Boost,
    End,
}

/// Which controls are held during the current frame.
#[derive(Clone, Copy, PartialEq, Eq, Structural, Debug)]
pub struct Inputs {
    pub up: bool,
    pub down: bool,
    pub left: bool,
    pub right: bool,
    pub boost_left: bool,
    pub boost_right: bool,
}

/// Which sound cues the current frame has fired.
#[derive(Clone, Copy, PartialEq, Eq, Structural, Debug)]
pub struct Sounds {
    pub hit: bool,
    pub lightning: bool,
    pub fling: bool,
    pub boost: bool,
    pub end: bool,
}

impl Inputs {
    /// No control held.
    pub open spec fn none() -> Inputs {
        Inputs {
            up: false,
            down: false,
            left: false,
            right: false,
            boost_left: false,
            boost_right: false,
        }
    }

    /// Whether a control is held.
    pub open spec fn held(self, input: Input) -> bool {
        match input {
            Input::Up => self.up,
            Input::Down => self.down,
            Input::Left => self.left,
            Input::Right => self.right,
            Input::BoostLeft => self.boost_left,
            Input::BoostRight => self.boost_right,
        }
    }

    /// The same controls, but for one that is held or not as given.
    pub open spec fn with(self, input: Input, held: bool) -> Inputs {
        match input {
            Input::Up => Inputs { up: held, ..self },
            Input::Down => Inputs { down: held, ..self },
            Input::Left => Inputs { left: held, ..self },
            Input::Right => Inputs { right: held, ..self },
            Input::BoostLeft => Inputs { boost_left: held, ..self },
            Input::BoostRight => Inputs { boost_right: held, ..self },
        }
    }

    /// No control held.
    pub fn new() -> (inputs: Inputs)
        ensures
            inputs == Inputs::none(),
    {
        Inputs {
            up: false,
            down: false,
            left: false,
            right: false,
            boost_left: false,
            boost_right: false,
        }
    }

    /// Whether a control is held.
    pub fn get(&self, input: Input) -> (b: bool)
        ensures
            b == self.held(input),
    {
        match input {
            Input::Up => self.up,
            Input::Down => self.down,
            Input::Left => self.left,
            Input::Right => self.right,
            Input::BoostLeft => self.boost_left,
            Input::BoostRight => self.boost_right,
        }
    }

    /// Marks a control as held or not.
    pub fn set(&mut self, input: Input, held: bool)
        ensures
            *final(self) == old(self).with(input, held),
    {
        match input {
            Input::Up => self.up = held,
            Input::Down => self.down = held,
            Input::Left => self.left = held,
            Input::Right => self.right = held,
            Input::BoostLeft => self.boost_left = held,
            Input::BoostRight => self.boost_right = held,
        }
    }
}

impl Sounds {
    /// No cue fired.
    pub open spec fn silent() -> Sounds {
        Sounds { hit: false, lightning: false, fling: false, boost: false, end: false }
    }

    /// Whether a cue has fired.
    pub open spec fn fired(self, sound: Sound) -> bool {
        match sound {
            Sound::Hit => self.hit,
            Sound::Lightning => self.lightning,
            Sound::Fling => self.fling,
            Sound::Boost => self.boost,
            Sound::End => self.end,
        }
    }

    /// The same cues, and one more fired.
    pub open spec fn with(self, sound: Sound) -> Sounds {
        match sound {
            Sound::Hit => Sounds { hit: true, ..self },
            Sound::Lightning => Sounds { lightning: true, ..self },
            Sound::Fling => Sounds { fling: true, ..self },
            Sound::Boost => Sounds { boost: true, ..self },
            Sound::End => Sounds { end: true, ..self },
        }
    }

    /// No cue fired.
    pub fn new() -> (sounds: Sounds)
        ensures
            sounds == Sounds::silent(),
    {
        Sounds { hit: false, lightning: false, fling: false, boost: false, end: false }
    }

    /// Whether a cue has fired.
    pub fn get(&self, sound: Sound) -> (b: bool)
        ensures
            b == self.fired(sound),
    {
        match sound {
            Sound::Hit => self.hit,
            Sound::Lightning => self.lightning,
            Sound::Fling => self.fling,
            Sound::Boost => self.boost,
            Sound::End => self.end,
        }
    }

    /// Marks `sound` to be played this frame.
    pub fn fire(&mut self, sound: Sound)
        ensures
            *final(self) == old(self).with(sound),
    {
        match sound {
            Sound::Hit => self.hit = true,
            Sound::Lightning => self.lightning = true,
            Sound::Fling => self.fling = true,
            Sound::Boost => self.boost = true,
            Sound::End => self.end = true,
        }
    }

    /// Forgets every cue, as the start of each frame does.
    pub fn clear(&mut self)
        ensures
            *final(self) == Sounds::silent(),
    {
        self.hit = false;
        self.lightning = false;
        self.fling = false;
        self.boost = false;
        self.end = false;
    }
}

/// The character of a decimal digit.
pub open spec fn digit(d: int) -> char {
    if d == 0 {
        '0'
    } else if d == 1 {
        '1'
    } else if d == 2 {
        '2'
    } else if d == 3 {
        '3'
    } else if d == 4 {
        '4'
    } else if d == 5 {
        '5'
    } else if d == 6 {
        '6'
    } else if d == 7 {
        '7'
    } else if d == 8 {
        '8'
    } else {
        '9'
    }
}

/// A number in decimal, without leading zeros.
pub open spec fn decimal(n: nat) -> Seq<char>
    decreases n,
{
    if n < 10 {
        seq![digit(n as int)]
    } else {
        decimal(n / 10).push(digit((n % 10) as int))
    }
}

/// A number in decimal, with a leading zero where it has one digit.
pub open spec fn two_digits(n: nat) -> Seq<char> {
    if n < 10 {
        seq!['0', digit(n as int)]
    } else {
        decimal(n)
    }
}

/// Hundredths of a second beyond the whole minutes, rounded to the nearest.
pub open spec fn hundredths(millis: u64) -> nat {
    ((millis % 60_000 + 5) / 10) as nat
}

/// A time as `minutes:seconds.hundredths`, minutes and seconds with two
/// digits at least. The seconds are rounded after the minutes are taken
/// out, so the last half hundredth of a minute reads as sixty seconds.
pub open spec fn clock(millis: u64) -> Seq<char> {
    two_digits((millis / 60_000) as nat) + seq![':'] + two_digits(hundredths(millis) / 100)
        + seq!['.'] + two_digits(hundredths(millis) % 100)
}

fn digit_str(d: u64) -> (s: &'static str)
    requires
        d < 10,
    ensures
        s@ == seq![digit(d as int)],
{
    proof {
        reveal_strlit("0");
        reveal_strlit("1");
        reveal_strlit("2");
        reveal_strlit("3");
        reveal_strlit("4");
        reveal_strlit("5");
        reveal_strlit("6");
        reveal_strlit("7");
        reveal_strlit("8");
        reveal_strlit("9");
    }
    let s: &'static str = if d == 0 {
        "0"
    } else if d == 1 {
        "1"
    } else if d == 2 {
        "2"
    } else if d == 3 {
        "3"
    } else if d == 4 {
        "4"
    } else if d == 5 {
        "5"
    } else if d == 6 {
        "6"
    } else if d == 7 {
        "7"
    } else if d == 8 {
        "8"
    } else {
        "9"
    };
    assert(s@ =~= seq![digit(d as int)]);
    s
}

fn push_decimal(text: &mut String, n: u64)
    ensures
        final(text)@ == old(text)@ + decimal(n as nat),
    decreases n,
{
    if n >= 10 {
        push_decimal(text, n / 10);
    }
    text.append(digit_str(n % 10));
    assert(final(text)@ =~= old(text)@ + decimal(n as nat));
}

fn push_two_digits(text: &mut String, n: u64)
    ensures
        final(text)@ == old(text)@ + two_digits(n as nat),
{
    if n < 10 {
        text.append(digit_str(0));
    }
    push_decimal(text, n);
    assert(final(text)@ =~= old(text)@ + two_digits(n as nat));
}

/// Writes a time in milliseconds as `minutes:seconds.hundredths`.
pub fn format_time(millis: u64) -> (text: String)
    ensures
        text@ == clock(millis),
{
    let minutes: u64 = millis / 60_000;
    let rounded: u64 = (millis % 60_000 + 5) / 10;
    let mut text = String::new();
    push_two_digits(&mut text, minutes);
    proof {
        reveal_strlit(":");
        reveal_strlit(".");
    }
    text.append(":");
    push_two_digits(&mut text, rounded / 100);
    text.append(".");
    push_two_digits(&mut text, rounded % 100);
    assert(text@ =~= clock(millis));
    text
}

/// Height of the ground line.
pub const GROUND_POSITION: i64 = 2_000_000;

/// Height at which the player starts.
pub const START_HEIGHT: i64 = 10_000;

/// The player lands on coming within this distance of the ground line.
pub const LANDING_REACH: i64 = 50_000;

/// The camera follows the player until the view's bottom edge is this far
/// below the ground line.
pub const GROUND_DEPTH: i64 = 60_000;

/// Time between the landing and the result screen.
pub const END_DELAY: i64 = 2_000;

/// The state of a game in progress.
#[derive(Debug)]
pub struct GameScene {
    pub player: Player,
    pub cursor: Cursor,
    pub generator: Generator,
    pub fling_things: Vec<FlingThing>,
    pub birds: Vec<Bird>,
    pub lightning: Option<Lightning>,
    pub time: i64,
    pub ground_position: i64,
    pub mouse_captured: bool,
    pub end_timer: i64,
    pub sounds: Sounds,
    pub camera: Camera,
    pub inputs: Inputs,
}

impl GameScene {
    /// The player's resources are within their limits, and the cursor's
    /// selection names a cloud of the scene.
    pub open spec fn wf(self) -> bool {
        self.player.wf() && self.cursor.wf(self.fling_things@)
    }

    /// The scene as a game begins on a screen of the given size, with the
    /// pointer at a point of the screen.
    pub open spec fn starts(self, difficulty: Difficulty, screen: Vec2, pointer: Vec2) -> bool {
        &&& self.player == Player::fresh(
            Vec2 { x: trunc_div(screen.x as int, 2) as i64, y: START_HEIGHT },
        )
        &&& self.cursor.position == pointer
        &&& self.cursor.click_position is None
        &&& self.cursor.selected_index is None
        &&& self.generator == Generator::fresh(difficulty)
        &&& well_laid(self.fling_things@, GROUND_POSITION, screen.x)
        &&& self.birds@.len() == 0
        &&& self.lightning is None
        &&& self.time == 0
        &&& self.ground_position == GROUND_POSITION
        &&& self.mouse_captured
        &&& self.end_timer == 0
        &&& self.sounds == Sounds::silent()
        &&& self.camera == Camera::over_screen(screen)
        &&& self.inputs == Inputs::none()
    }

    /// Whether the pointer is captured after a frame's input: a press
    /// captures it, and the escape key, which is looked at last, frees it.
    pub open spec fn captured_after(captured: bool, pressed: bool, escape: bool) -> bool {
        !escape && (captured || pressed)
    }

    /// Starts a game: the player at the top, the clouds laid out at random,
    /// no bird and no thunder cloud yet.
    pub fn new(difficulty: Difficulty, screen: Vec2, pointer: Vec2) -> (scene: GameScene)
        ensures
            scene.starts(difficulty, screen, pointer),
            scene.wf(),
    {
        let camera = Camera::from_screen(screen);
        let ground_position: i64 = GROUND_POSITION;
        GameScene {
            player: Player::new(Vec2::new(div_trunc(screen.x, 2), START_HEIGHT)),
            cursor: Cursor::new(pointer),
            generator: Generator::new(difficulty),
            fling_things: generate_fling_things(ground_position, screen.x),
            birds: Vec::new(),
            lightning: None,
            time: 0,
            ground_position,
            mouse_captured: true,
            end_timer: 0,
            sounds: Sounds::new(),
            camera,
            inputs: Inputs::new(),
        }
    }

    /// Takes in what the devices report for a frame: the held controls, and
    /// whether the pointer stays captured.
    pub fn handle_input(&mut self, inputs: Inputs, pressed: bool, escape: bool)
        ensures
            *final(self) == (GameScene {
                inputs,
                mouse_captured: GameScene::captured_after(
                    old(self).mouse_captured,
                    pressed,
                    escape,
                ),
                ..*old(self)
            }),
    {
        self.inputs = inputs;
        if !self.mouse_captured && pressed {
            self.mouse_captured = true;
        }
        if escape {
            self.mouse_captured = false;
        }
    }
}

/// The state of a game in progress, its collections as sequences.
pub struct GameModel {
    pub player: Player,
    pub cursor: Cursor,
    pub generator: Generator,
    pub fling_things: Seq<FlingThing>,
    pub birds: Seq<Bird>,
    pub lightning: Option<Lightning>,
    pub time: i64,
    pub ground_position: i64,
    pub mouse_captured: bool,
    pub end_timer: i64,
    pub sounds: Sounds,
    pub camera: Camera,
    pub inputs: Inputs,
}

/// What the moving part of a frame passes through: the clouds once the
/// cursor has acted, the birds once they have moved, the random choices of
/// the spawner, and the thunder cloud once the spawner has acted.
pub struct Midway {
    pub grabbed: Seq<FlingThing>,
    pub flock: Seq<Bird>,
    pub rolls: SpawnRolls,
    pub spawned: Option<Lightning>,
}

impl View for GameScene {
    type V = GameModel;

    open spec fn view(&self) -> GameModel {
        GameModel {
            player: self.player,
            cursor: self.cursor,
            generator: self.generator,
            fling_things: self.fling_things@,
            birds: self.birds@,
            lightning: self.lightning,
            time: self.time,
            ground_position: self.ground_position,
            mouse_captured: self.mouse_captured,
            end_timer: self.end_timer,
            sounds: self.sounds,
            camera: self.camera,
            inputs: self.inputs,
        }
    }
}

/// The clouds after each has moved for `elapsed` milliseconds.
pub open spec fn things_moved(things: Seq<FlingThing>, elapsed: i64) -> Seq<FlingThing> {
    Seq::new(things.len(), |i: int| things[i].moved(elapsed))
}

/// What one frame may make of the birds: each is updated, with a variation
/// of its own.
pub open spec fn birds_updated(
    birds: Seq<Bird>,
    player: Player,
    elapsed: i64,
    screen_width: i64,
    next: Seq<Bird>,
) -> bool {
    &&& next.len() == birds.len()
    &&& forall|j: int|
        0 <= j < birds.len() ==> birds[j].updates_to(player, elapsed, screen_width, #[trigger] next[j])
}

impl GameModel {
    /// The scene with every sound cue forgotten.
    pub open spec fn hushed(self) -> GameModel {
        GameModel { sounds: Sounds::silent(), ..self }
    }

    /// The scene after a frame's input has been taken in.
    pub open spec fn with_input(self, inputs: Inputs, pressed: bool, escape: bool) -> GameModel {
        GameModel {
            inputs,
            mouse_captured: GameScene::captured_after(self.mouse_captured, pressed, escape),
            ..self
        }
    }

    /// The camera follows the player until the ground has come into view.
    pub open spec fn camera_after(self, player: Player) -> Camera {
        if self.ground_position + GROUND_DEPTH > self.camera.spec_bottom() {
            self.camera.following(player.position.y)
        } else {
            self.camera
        }
    }

    /// The sound cues once the player and the cursor have taken their turns.
    pub open spec fn steered_sounds(self, pointer: Pointer) -> Sounds {
        let boosted = if self.player.boost_starts(self.inputs) {
            self.sounds.with(Sound::Boost)
        } else {
            self.sounds
        };
        if self.cursor.releases(pointer) {
            boosted.with(Sound::Fling)
        } else {
            boosted
        }
    }

    /// The turn of the spawner and then of the thunder cloud, for given
    /// random choices and a given cloud between the two.
    pub open spec fn spawned_via(
        self,
        elapsed: i64,
        rolls: SpawnRolls,
        spawned: Option<Lightning>,
        next: GameModel,
    ) -> bool {
        &&& rolls.fit(self.camera, self.player)
        &&& self.generator.generated(
            self.camera,
            self.player,
            self.birds,
            self.lightning,
            elapsed,
            rolls,
            next.generator,
            next.birds,
            spawned,
        )
        &&& next == (GameModel {
            generator: next.generator,
            birds: next.birds,
            lightning: match spawned {
                Some(l) => Some(l.updated(self.camera, elapsed)),
                None => None,
            },
            sounds: if spawned is Some && spawned->0.strikes() {
                self.sounds.with(Sound::Lightning)
            } else {
                self.sounds
            },
            ..self
        })
    }

    /// The turn of the spawner and then of the thunder cloud, whatever the
    /// random choices.
    pub open spec fn spawned_to(self, elapsed: i64, next: GameModel) -> bool {
        exists|pair: (SpawnRolls, Option<Lightning>)|
            #[trigger] self.spawned_via(elapsed, pair.0, pair.1, next)
    }

    /// The moving part of a frame, through given intermediate values: the
    /// player moves, the cursor acts on the clouds, the clouds and the
    /// birds move, the camera follows, the spawner acts, and the thunder
    /// cloud, a new one too, moves.
    pub open spec fn moved_via(self, pointer: Pointer, elapsed: i64, mid: Midway, next: GameModel) -> bool {
        let player = self.player.updated(self.inputs, elapsed, self.camera.screen.x);
        let camera = self.camera_after(player);
        let flung = self.steered_sounds(pointer);
        &&& next.player == player
        &&& self.cursor.updates_to(pointer, self.camera, self.fling_things, next.cursor, mid.grabbed)
        &&& next.fling_things == things_moved(mid.grabbed, elapsed)
        &&& birds_updated(self.birds, player, elapsed, self.camera.screen.x, mid.flock)
        &&& next.camera == camera
        &&& mid.rolls.fit(camera, player)
        &&& self.generator.generated(
            camera,
            player,
            mid.flock,
            self.lightning,
            elapsed,
            mid.rolls,
            next.generator,
            next.birds,
            mid.spawned,
        )
        &&& next.lightning == match mid.spawned {
            Some(l) => Some(l.updated(camera, elapsed)),
            None => None,
        }
        &&& next.sounds == if mid.spawned is Some && mid.spawned->0.strikes() {
            flung.with(Sound::Lightning)
        } else {
            flung
        }
        &&& next.time == self.time
        &&& next.ground_position == self.ground_position
        &&& next.mouse_captured == self.mouse_captured
        &&& next.end_timer == self.end_timer
        &&& next.inputs == self.inputs
    }

    /// The moving part of a frame, whatever the random choices.
    pub open spec fn moved_to(self, pointer: Pointer, elapsed: i64, next: GameModel) -> bool {
        exists|mid: Midway| #[trigger] self.moved_via(pointer, elapsed, mid, next)
    }

    /// The scene after the collision pass: clouds against the player, birds
    /// against the player, flung clouds against birds, the thunder cloud
    /// against the player.
    pub open spec fn collided(self) -> GameModel {
        let hitbox = self.player.hitbox;
        let touched = touch_all(self.player, self.fling_things, self.fling_things.len() as int);
        let pecked = player_after_birds(touched, self.birds);
        let things = things_after_player(self.fling_things, hitbox);
        let birds = birds_after_player(self.birds, hitbox);
        let bird_hit = any_bird_over(self.birds, hitbox, self.birds.len() as int)
            && touched.invincible <= 0;
        let bolt_hit = lightning_over(self.lightning, hitbox) && pecked.invincible <= 0;
        GameModel {
            player: player_after_lightning(pecked, self.lightning),
            fling_things: things_after_birds(things, birds),
            birds: birds_after(birds, things, things.len() as int),
            sounds: if bird_hit || bolt_hit {
                self.sounds.with(Sound::Hit)
            } else {
                self.sounds
            },
            ..self
        }
    }

    /// Whether the player has come down to the ground.
    pub open spec fn reaches_ground(self) -> bool {
        self.player.position.y + LANDING_REACH >= self.ground_position
    }

    /// The scene after the landing check: on the ground the player lands,
    /// the end cue fires and the delay to the result screen starts; in the
    /// air the clock runs on.
    pub open spec fn grounded(self, elapsed: i64) -> GameModel {
        if self.reaches_ground() {
            GameModel {
                player: Player { state: PlayerState::Landed, ..self.player },
                sounds: self.sounds.with(Sound::End),
                end_timer: END_DELAY,
                ..self
            }
        } else {
            GameModel { time: clamp_i64(self.time + elapsed) as i64, ..self }
        }
    }

    /// The scene after the despawning pass: birds outside the play zone go;
    /// unless the cursor holds a cloud, lost clouds go; a destroyed thunder
    /// cloud goes.
    pub open spec fn cleaned(self) -> GameModel {
        GameModel {
            birds: birds_swept(self.birds, self.camera.play_zone(), self.birds.len() as int),
            fling_things: if self.cursor.selected_index is Some {
                self.fling_things
            } else {
                things_swept(self.fling_things, self.camera, self.fling_things.len() as int)
            },
            lightning: match self.lightning {
                Some(l) => if l.state == LightningState::Destroyed {
                    None
                } else {
                    Some(l)
                },
                None => None,
            },
            ..self
        }
    }

    /// The scene while it waits for the result screen: only the delay runs.
    pub open spec fn waited(self, elapsed: i64) -> GameModel {
        GameModel {
            sounds: Sounds::silent(),
            end_timer: clamp_i64(self.end_timer - elapsed) as i64,
            ..self
        }
    }

    /// What one frame may make of the scene, and what it asks of the scene
    /// stack. After a landing only the delay runs, and when it has run out
    /// the result screen takes over with the time flown. Before, the frame
    /// moves everything, resolves collisions, checks for the landing and
    /// despawns, and the scene goes on.
    pub open spec fn steps_to(self, pointer: Pointer, elapsed: i64, next: GameModel, action: SceneAction) -> bool {
        if self.end_timer > 0 {
            &&& next == self.waited(elapsed)
            &&& if next.end_timer <= 0 {
                action matches SceneAction::Replace(Scene::End(e)) && e.shows(self.time)
            } else {
                action == SceneAction::Continue
            }
        } else {
            &&& action == SceneAction::Continue
            &&& exists|mid: GameModel|
                {
                    &&& #[trigger] self.hushed().moved_to(pointer, elapsed, mid)
                    &&& next == mid.collided().grounded(elapsed).cleaned()
                }
        }
    }
}

impl GameScene {
    fn update_things(&mut self, elapsed: i64)
        ensures
            final(self)@ == (GameModel {
                fling_things: things_moved(old(self)@.fling_things, elapsed),
                ..old(self)@
            }),
    {
        let ghost before = self.fling_things@;
        let mut i: usize = 0;
        while i < self.fling_things.len()
            invariant
                i <= self.fling_things.len(),
                self.fling_things@.len() == before.len(),
                forall|k: int| 0 <= k < i ==> self.fling_things@[k] == before[k].moved(elapsed),
                forall|k: int| i <= k < before.len() ==> self.fling_things@[k] == before[k],
                self@ == (GameModel { fling_things: self.fling_things@, ..old(self)@ }),
            decreases self.fling_things.len() - i,
        {
            let mut thing: FlingThing = self.fling_things[i];
            thing.update(elapsed);
            self.fling_things.set(i, thing);
            i = i + 1;
        }
        assert(self.fling_things@ =~= things_moved(before, elapsed));
    }

    fn update_birds(&mut self, elapsed: i64)
        ensures
            birds_updated(
                old(self)@.birds,
                old(self).player,
                elapsed,
                old(self).camera.screen.x,
                final(self)@.birds,
            ),
            final(self)@ == (GameModel { birds: final(self)@.birds, ..old(self)@ }),
    {
        let ghost before = self.birds@;
        let mut j: usize = 0;
        while j < self.birds.len()
            invariant
                j <= self.birds.len(),
                self.birds@.len() == before.len(),
                forall|k: int|
                    0 <= k < j ==> before[k].updates_to(
                        self.player,
                        elapsed,
                        self.camera.screen.x,
                        #[trigger] self.birds@[k],
                    ),
                forall|k: int| j <= k < before.len() ==> self.birds@[k] == before[k],
                self@ == (GameModel { birds: self.birds@, ..old(self)@ }),
            decreases self.birds.len() - j,
        {
            let mut bird: Bird = self.birds[j];
            bird.update(&self.player, elapsed, self.camera.screen.x);
            self.birds.set(j, bird);
            j = j + 1;
        }
    }

    /// The collision pass of a frame.
    pub fn check_collisions(&mut self)
        ensures
            final(self)@ == old(self)@.collided(),
            old(self).wf() ==> final(self).wf(),
    {
        collide_things_player(&mut self.player, &mut self.fling_things);
        collide_birds_player(&mut self.player, &mut self.birds, &mut self.sounds);
        collide_things_birds(&mut self.fling_things, &mut self.birds);
        collide_lightning_player(&mut self.player, &self.lightning, &mut self.sounds);
    }

    /// The despawning pass of a frame: the birds left are those that are
    /// not lost, and so are the clouds unless the cursor holds one; a
    /// thunder cloud whose strike is over goes.
    pub fn clean_up(&mut self)
        ensures
            final(self)@ == old(self)@.cleaned(),
            final(self).birds@.to_multiset() == birds_kept(
                old(self).birds@,
                old(self).camera.play_zone(),
            ),
            old(self).cursor.selected_index is None ==> final(self).fling_things@.to_multiset()
                == things_kept(old(self).fling_things@, old(self).camera),
            old(self).wf() ==> final(self).wf(),
    {
        let play_zone: Rect = self.camera.zone();
        sweep_birds(&mut self.birds, &play_zone);
        if !self.cursor.has_selected() {
            sweep_things(&mut self.fling_things, &self.camera);
        }
        let gone: bool = match &self.lightning {
            Some(lightning) => lightning.should_destroy(),
            None => false,
        };
        if gone {
            self.lightning = None;
        }
    }

    /// The player and the cursor take their turns.
    fn steer(&mut self, pointer: &Pointer, elapsed: i64)
        requires
            old(self).wf(),
        ensures
            final(self).wf(),
            final(self).player == old(self).player.updated(
                old(self).inputs,
                elapsed,
                old(self).camera.screen.x,
            ),
            old(self).cursor.updates_to(
                *pointer,
                old(self).camera,
                old(self).fling_things@,
                final(self).cursor,
                final(self).fling_things@,
            ),
            final(self).sounds == old(self)@.steered_sounds(*pointer),
            final(self)@ == (GameModel {
                player: final(self).player,
                cursor: final(self).cursor,
                fling_things: final(self).fling_things@,
                sounds: final(self).sounds,
                ..old(self)@
            }),
    {
        self.player.update(&self.inputs, &mut self.sounds, elapsed, self.camera.screen.x);
        self.cursor.update(pointer, &self.camera, &mut self.fling_things, &mut self.sounds);
    }

    /// The camera follows the player until the ground has come into view.
    fn follow_player(&mut self)
        ensures
            final(self)@ == (GameModel {
                camera: old(self)@.camera_after(old(self).player),
                ..old(self)@
            }),
    {
        if self.ground_position as i128 + GROUND_DEPTH as i128 > self.camera.bottom() as i128 {
            self.camera.follow(self.player.position.y);
        }
    }

    /// The spawner takes its turn, and then the thunder cloud, a new one too.
    fn spawn(&mut self, elapsed: i64)
        ensures
            old(self)@.spawned_to(elapsed, final(self)@),
    {
        let ghost before = self@;
        self.generator.generate(
            &self.camera,
            &self.player,
            &mut self.birds,
            &mut self.lightning,
            elapsed,
        );
        let ghost spawned = self.lightning;
        let ghost rolls = choose|rolls: SpawnRolls|
            rolls.fit(self.camera, self.player) && #[trigger] before.generator.generated(
                self.camera,
                self.player,
                before.birds,
                before.lightning,
                elapsed,
                rolls,
                self.generator,
                self.birds@,
                spawned,
            );
        match self.lightning {
            Some(mut cloud) => {
                cloud.update(&self.camera, &mut self.sounds, elapsed);
                self.lightning = Some(cloud);
            },
            None => {},
        }
        proof {
            let pair = (rolls, spawned);
            assert(before.spawned_via(elapsed, pair.0, pair.1, self@));
        }
    }

    fn advance(&mut self, pointer: &Pointer, elapsed: i64)
        requires
            old(self).wf(),
        ensures
            old(self)@.moved_to(*pointer, elapsed, final(self)@),
            final(self).wf(),
    {
        let ghost start = self@;
        self.steer(pointer, elapsed);
        let ghost grabbed = self.fling_things@;
        self.update_things(elapsed);
        self.update_birds(elapsed);
        let ghost flock = self.birds@;
        self.follow_player();
        let ghost ready = self@;
        self.spawn(elapsed);
        proof {
            let (rolls, spawned) = choose|pair: (SpawnRolls, Option<Lightning>)|
                #[trigger] ready.spawned_via(elapsed, pair.0, pair.1, self@);
            let mid = Midway { grabbed, flock, rolls, spawned };
            assert(start.moved_via(*pointer, elapsed, mid, self@));
        }
    }

    fn touch_down(&mut self, elapsed: i64)
        ensures
            final(self)@ == old(self)@.grounded(elapsed),
            old(self).wf() ==> final(self).wf(),
    {
        if self.player.position.y as i128 + LANDING_REACH as i128 >= self.ground_position as i128 {
            self.player.land();
            self.sounds.fire(Sound::End);
            self.end_timer = END_DELAY;
        } else {
            self.time = add_sat(self.time, elapsed);
        }
    }

    /// Advances the game by one frame.
    pub fn update(&mut self, pointer: &Pointer, elapsed: i64) -> (action: SceneAction)
        requires
            old(self).wf(),
        ensures
            old(self)@.steps_to(*pointer, elapsed, final(self)@, action),
            final(self).wf(),
    {
        self.sounds.clear();
        if self.end_timer > 0 {
            self.end_timer = sub_sat(self.end_timer, elapsed);
            return if self.end_timer <= 0 {
                SceneAction::Replace(Scene::End(EndScene::new(self.time)))
            } else {
                SceneAction::Continue
            };
        }
        self.advance(pointer, elapsed);
        self.check_collisions();
        self.touch_down(elapsed);
        self.clean_up();
        SceneAction::Continue
    }
}

/// Whether a control is held: some key bound to it is down.
pub fn any_held(keys_down: &Vec<bool>) -> (held: bool)
    ensures
        held == exists|i: int| 0 <= i < keys_down@.len() && keys_down@[i],
{
    let mut i: usize = 0;
    while i < keys_down.len()
        invariant
            i <= keys_down.len(),
            forall|j: int| 0 <= j < i ==> !keys_down@[j],
        decreases keys_down.len() - i,
    {
        if keys_down[i] {
            return true;
        }
        i = i + 1;
    }
    false
}

} // verus!
