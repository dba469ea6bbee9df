//! The pointer, with which clouds are grabbed and flung.
use vstd::prelude::*;
use crate::camera::Camera;
use crate::fling::FlingThing;
use crate::geometry::Vec2;
use crate::scenes::game_scene::{Sound, Sounds};

verus! {

/// Number of points drawn along a predicted trajectory.
pub const TRAJECTORY_POINTS: usize = 20;

/// Time between two points of a predicted trajectory.
pub const TRAJECTORY_STEP: i64 = 250;

/// What the pointing device reports for one frame.
#[derive(Clone, Copy, PartialEq, Eq, Structural, Debug)]
pub struct Pointer {
    /// Position on the screen.
    pub position: Vec2,
    /// The button went down in this frame.
    pub pressed: bool,
    /// The button is held.
    pub down: bool,
}

/// The pointer in the world, and what it has grabbed.
#[derive(Clone, Copy, Debug)]
pub struct Cursor {
    pub position: Vec2,
    pub click_position: Option<Vec2>,
    pub selected_index: Option<usize>,
}

/// `found` is the first cloud, in the order of `things`, whose hitbox holds
/// `point`, or nothing where no hitbox holds it.
pub open spec fn first_under(things: Seq<FlingThing>, point: Vec2, found: Option<usize>) -> bool {
    match found {
        Some(i) => {
            &&& i < things.len()
            &&& things[i as int].hitbox.spec_contains(point)
            &&& forall|j: int| 0 <= j < i ==> !(#[trigger] things[j]).hitbox.spec_contains(point)
        },
        None => forall|j: int|
            0 <= j < things.len() ==> !(#[trigger] things[j]).hitbox.spec_contains(point),
    }
}

/// The first cloud under a point, in the order of the collection.
pub fn find_under(things: &Vec<FlingThing>, point: Vec2) -> (found: Option<usize>)
    ensures
        first_under(things@, point, found),
{
    let mut i: usize = 0;
    while i < things.len()
        invariant
            i <= things.len(),
            forall|j: int| 0 <= j < i ==> !(#[trigger] things@[j]).hitbox.spec_contains(point),
        decreases things.len() - i,
    {
        if things[i].hitbox.contains(point) {
            return Some(i);
        }
        i = i + 1;
    }
    None
}

impl Cursor {
    /// The selection, if any, names a cloud of `things`.
    pub open spec fn wf(self, things: Seq<FlingThing>) -> bool {
        match self.selected_index {
            Some(i) => i < things.len(),
            None => true,
        }
    }

    /// Whether this frame releases a grabbed cloud.
    pub open spec fn releases(self, pointer: Pointer) -> bool {
        !pointer.pressed && !pointer.down && self.selected_index is Some && self.click_position
            is Some
    }

    /// The slingshot: a released cloud flies from the release point toward
    /// the point where it was grabbed.
    pub open spec fn fling_vector(self, release: Vec2) -> Vec2 {
        self.click_position->0.minus(release)
    }

    /// What one frame makes of the cursor and the clouds: the cursor
    /// follows the pointer into the world; a press grabs the first cloud
    /// under it and remembers the point; holding changes nothing; a release
    /// flings the grabbed cloud and lets go.
    pub open spec fn updates_to(
        self,
        pointer: Pointer,
        camera: Camera,
        things: Seq<FlingThing>,
        next: Cursor,
        next_things: Seq<FlingThing>,
    ) -> bool {
        &&& next.position == camera.to_world(pointer.position)
        &&& pointer.pressed ==> {
            &&& first_under(things, next.position, next.selected_index)
            &&& next.click_position == Some(next.position)
        }
        &&& !pointer.pressed && pointer.down ==> {
            &&& next.selected_index == self.selected_index
            &&& next.click_position == self.click_position
        }
        &&& !pointer.pressed && !pointer.down ==> {
            &&& next.selected_index is None
            &&& next.click_position is None
        }
        &&& next_things == if self.releases(pointer) {
            things.update(
                self.selected_index->0 as int,
                things[self.selected_index->0 as int].flung_by(
                    self.fling_vector(camera.to_world(pointer.position)),
                ),
            )
        } else {
            things
        }
    }

    /// A cursor at a point of the world, holding nothing.
    pub fn new(position: Vec2) -> (cursor: Cursor)
        ensures
            cursor.position == position,
            cursor.click_position is None,
            cursor.selected_index is None,
    {
        Cursor { position, click_position: None, selected_index: None }
    }

    /// Follows the pointer without grabbing, as the screens without clouds do.
    pub fn basic_update(&mut self, pointer: &Pointer)
        ensures
            final(self).position == pointer.position,
            final(self).click_position == old(self).click_position,
            final(self).selected_index == old(self).selected_index,
    {
        self.position = pointer.position;
    }

    /// Follows the pointer. A press grabs the first cloud under the pointer
    /// and remembers the point; holding changes nothing; a release flings the
    /// grabbed cloud by the vector from the release point to the remembered
    /// point, fires the fling cue, and lets go.
    pub fn update(
        &mut self,
        pointer: &Pointer,
        camera: &Camera,
        fling_things: &mut Vec<FlingThing>,
        sounds: &mut Sounds,
    )
        requires
            old(self).wf(old(fling_things)@),
        ensures
            old(self).updates_to(
                *pointer,
                *camera,
                old(fling_things)@,
                *final(self),
                final(fling_things)@,
            ),
            final(self).wf(final(fling_things)@),
            *final(sounds) == if old(self).releases(*pointer) {
                old(sounds).with(Sound::Fling)
            } else {
                *old(sounds)
            },
    {
        self.position = camera.screen_to_world(pointer.position);

        if pointer.pressed {
            self.selected_index = find_under(fling_things, self.position);
            self.click_position = Some(self.position);
        } else if !pointer.down {
            if let (Some(index), Some(point)) = (self.selected_index, self.click_position) {
                let mut thing: FlingThing = fling_things[index];
                thing.fling(point.sub_vec(self.position));
                fling_things.set(index, thing);
                sounds.fire(Sound::Fling);
            }
            self.click_position = None;
            self.selected_index = None;
        }
    }

    /// The velocity that a release would ask for now, while a cloud is held.
    pub fn aim(&self) -> (v: Option<Vec2>)
        ensures
            v == if self.selected_index is Some && self.click_position is Some {
                Some(self.fling_vector(self.position))
            } else {
                None
            },
    {
        match (self.selected_index, self.click_position) {
            (Some(_), Some(point)) => Some(point.sub_vec(self.position)),
            _ => None,
        }
    }

    /// Whether a cloud is held.
    pub fn has_selected(&self) -> (b: bool)
        ensures
            b == (self.selected_index is Some),
    {
        self.selected_index.is_some()
    }
}

/// The points that a cloud flung from `start` with `velocity` passes at
/// equal intervals of time.
pub fn calc_trajectory(start: Vec2, velocity: Vec2) -> (points: Vec<Vec2>)
    ensures
        points@.len() == TRAJECTORY_POINTS,
        forall|k: int|
            0 <= k < TRAJECTORY_POINTS ==> #[trigger] points@[k] == start.plus(
                velocity.over(((k + 1) * TRAJECTORY_STEP) as i64),
            ),
{
    let mut points: Vec<Vec2> = Vec::new();
    let mut t: i64 = 0;
    while t < 5_000
        invariant
            0 <= t <= 5_000,
            t == points@.len() * TRAJECTORY_STEP,
            forall|k: int|
                0 <= k < points@.len() ==> #[trigger] points@[k] == start.plus(
                    velocity.over(((k + 1) * TRAJECTORY_STEP) as i64),
                ),
        decreases 5_000 - t,
    {
        t = t + TRAJECTORY_STEP;
        points.push(start.add_vec(velocity.scaled(t)));
    }
    points
}

/// The vector of a fling is the point of the press less the point of the
/// release, on each axis, so that a cloud dragged one way flies the other.
pub proof fn lemma_fling_vector(cursor: Cursor, press: Vec2, release: Vec2)
    requires
        cursor.click_position == Some(press),
        i64::MIN <= press.x - release.x <= i64::MAX,
        i64::MIN <= press.y - release.y <= i64::MAX,
    ensures
        cursor.fling_vector(release).x == press.x - release.x,
        cursor.fling_vector(release).y == press.y - release.y,
{
}

} // verus!
