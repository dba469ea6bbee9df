//! The collision pass of a frame: clouds against the player, birds against
//! the player, flung clouds against birds, and the thunder cloud against
//! the player, in that order.
use vstd::prelude::*;
use crate::bird::Bird;
use crate::fling::{FlingState, FlingThing};
use crate::geometry::Rect;
use crate::lightning::Lightning;
use crate::player::Player;
use crate::scenes::game_scene::{Sound, Sounds};

verus! {

/// Whether a cloud meets the player: it has not been destroyed, and its
/// hitbox overlaps the player's.
pub open spec fn meets_player(thing: FlingThing, hitbox: Rect) -> bool {
    thing.state != FlingState::Destroyed && thing.hitbox.spec_overlaps(hitbox)
}

/// A cloud after the pass against the player's hitbox.
pub open spec fn hit_by_player(thing: FlingThing, hitbox: Rect) -> FlingThing {
    if meets_player(thing, hitbox) {
        thing.struck()
    } else {
        thing
    }
}

/// The clouds after the pass against the player's hitbox.
pub open spec fn things_after_player(things: Seq<FlingThing>, hitbox: Rect) -> Seq<FlingThing> {
    Seq::new(things.len(), |i: int| hit_by_player(things[i], hitbox))
}

/// The player after touching, in order, each of the first `n` clouds that
/// meets the player.
pub open spec fn touch_all(player: Player, things: Seq<FlingThing>, n: int) -> Player
    decreases n,
{
    if n <= 0 {
        player
    } else {
        let before = touch_all(player, things, n - 1);
        if meets_player(things[n - 1], player.hitbox) {
            before.touched(things[n - 1])
        } else {
            before
        }
    }
}

/// A bird after the pass against the player's hitbox.
pub open spec fn pecked(bird: Bird, hitbox: Rect) -> Bird {
    if bird.hitbox.spec_overlaps(hitbox) {
        bird.bumped()
    } else {
        bird
    }
}

/// The birds after the pass against the player's hitbox.
pub open spec fn birds_after_player(birds: Seq<Bird>, hitbox: Rect) -> Seq<Bird> {
    Seq::new(birds.len(), |j: int| pecked(birds[j], hitbox))
}

/// Whether one of the first `n` birds overlaps a rectangle.
pub open spec fn any_bird_over(birds: Seq<Bird>, hitbox: Rect, n: int) -> bool {
    exists|j: int| 0 <= j < n && j < birds.len() && (#[trigger] birds[j]).hitbox.spec_overlaps(hitbox)
}

/// The player after the pass of the birds: one overlap is enough for a hit,
/// and more overlaps add nothing.
pub open spec fn player_after_birds(player: Player, birds: Seq<Bird>) -> Player {
    if any_bird_over(birds, player.hitbox, birds.len() as int) {
        player.damaged()
    } else {
        player
    }
}

/// The index of the first bird at or after `from` that overlaps a
/// rectangle, or the number of birds where there is none.
pub open spec fn first_overlap(birds: Seq<Bird>, hitbox: Rect, from: int) -> int
    decreases birds.len() - from,
{
    if from >= birds.len() {
        birds.len() as int
    } else if from >= 0 && birds[from].hitbox.spec_overlaps(hitbox) {
        from
    } else {
        first_overlap(birds, hitbox, from + 1)
    }
}

/// Whether a cloud strikes a bird: it is in flung motion and overlaps one.
pub open spec fn strikes_bird(thing: FlingThing, birds: Seq<Bird>) -> bool {
    thing.state == FlingState::Flung && first_overlap(birds, thing.hitbox, 0) < birds.len()
}

/// The birds after one cloud has had its turn: a flung cloud bumps the
/// first bird that it overlaps.
pub open spec fn strike_one(birds: Seq<Bird>, thing: FlingThing) -> Seq<Bird> {
    if strikes_bird(thing, birds) {
        let j = first_overlap(birds, thing.hitbox, 0);
        birds.update(j, birds[j].bumped())
    } else {
        birds
    }
}

/// The birds after the first `n` clouds have had their turns.
pub open spec fn birds_after(birds: Seq<Bird>, things: Seq<FlingThing>, n: int) -> Seq<Bird>
    decreases n,
{
    if n <= 0 {
        birds
    } else {
        strike_one(birds_after(birds, things, n - 1), things[n - 1])
    }
}

/// The clouds after the pass against the birds: a cloud that strikes a bird
/// is destroyed.
pub open spec fn things_after_birds(things: Seq<FlingThing>, birds: Seq<Bird>) -> Seq<FlingThing> {
    Seq::new(
        things.len(),
        |i: int|
            if strikes_bird(things[i], birds_after(birds, things, i)) {
                things[i].struck()
            } else {
                things[i]
            },
    )
}

/// Whether a thunder cloud exists and touches a rectangle; a destroyed one
/// touches nothing.
pub open spec fn lightning_over(lightning: Option<Lightning>, hitbox: Rect) -> bool {
    match lightning {
        Some(l) => l.touches(hitbox),
        None => false,
    }
}

/// The player after the pass of the thunder cloud.
pub open spec fn player_after_lightning(player: Player, lightning: Option<Lightning>) -> Player {
    if lightning_over(lightning, player.hitbox) {
        player.damaged()
    } else {
        player
    }
}

/// Bumping birds leaves their hitboxes in place, so the number of birds
/// and what each overlaps stay the same while clouds take their turns.
pub proof fn lemma_birds_keep_hitboxes(birds: Seq<Bird>, things: Seq<FlingThing>, n: int)
    ensures
        birds_after(birds, things, n).len() == birds.len(),
        forall|j: int|
            0 <= j < birds.len() ==> (#[trigger] birds_after(birds, things, n)[j]).hitbox
                == birds[j].hitbox,
    decreases n,
{
    if n > 0 {
        lemma_birds_keep_hitboxes(birds, things, n - 1);
        let before = birds_after(birds, things, n - 1);
        lemma_first_overlap_in_range(before, things[n - 1].hitbox, 0);
    }
}

/// The first overlap from `from` on is at `from` at least and at the number
/// of birds at most, and where it names a bird, that bird overlaps and no
/// bird between `from` and it does.
pub proof fn lemma_first_overlap_in_range(birds: Seq<Bird>, hitbox: Rect, from: int)
    requires
        0 <= from,
    ensures
        from <= first_overlap(birds, hitbox, from) || first_overlap(birds, hitbox, from)
            == birds.len(),
        first_overlap(birds, hitbox, from) <= birds.len(),
        first_overlap(birds, hitbox, from) < birds.len() ==> birds[first_overlap(
            birds,
            hitbox,
            from,
        )].hitbox.spec_overlaps(hitbox),
        forall|j: int|
            from <= j < first_overlap(birds, hitbox, from) ==> !(#[trigger] birds[j]).hitbox.spec_overlaps(
                hitbox,
            ),
    decreases birds.len() - from,
{
    if from < birds.len() && !birds[from].hitbox.spec_overlaps(hitbox) {
        lemma_first_overlap_in_range(birds, hitbox, from + 1);
    }
}

/// Each cloud that meets the player touches the player and is destroyed.
/// A cloud that was destroyed before takes no part.
pub fn collide_things_player(player: &mut Player, things: &mut Vec<FlingThing>)
    ensures
        *final(player) == touch_all(*old(player), old(things)@, old(things)@.len() as int),
        final(things)@ == things_after_player(old(things)@, old(player).hitbox),
        old(player).wf() ==> final(player).wf(),
        final(player).hitbox == old(player).hitbox,
{
    let ghost start = *player;
    let ghost before = things@;
    let mut i: usize = 0;
    while i < things.len()
        invariant
            i <= things.len(),
            things@.len() == before.len(),
            *player == touch_all(start, before, i as int),
            player.hitbox == start.hitbox,
            start.wf() ==> player.wf(),
            forall|k: int| 0 <= k < i ==> things@[k] == hit_by_player(before[k], start.hitbox),
            forall|k: int| i <= k < things@.len() ==> things@[k] == before[k],
        decreases things.len() - i,
    {
        let mut thing: FlingThing = things[i];
        if !thing.should_destroy() && thing.hitbox.overlaps(&player.hitbox) {
            player.thing_collision(&thing);
            thing.collision();
            things.set(i, thing);
        }
        i = i + 1;
    }
    assert(things@ =~= things_after_player(before, start.hitbox));
}

/// Each bird that overlaps the player hits the player and is bumped away.
pub fn collide_birds_player(player: &mut Player, birds: &mut Vec<Bird>, sounds: &mut Sounds)
    ensures
        *final(player) == player_after_birds(*old(player), old(birds)@),
        final(birds)@ == birds_after_player(old(birds)@, old(player).hitbox),
        old(player).wf() ==> final(player).wf(),
        *final(sounds) == if any_bird_over(
            old(birds)@,
            old(player).hitbox,
            old(birds)@.len() as int,
        ) && old(player).invincible <= 0 {
            old(sounds).with(Sound::Hit)
        } else {
            *old(sounds)
        },
{
    let ghost start = *player;
    let ghost before = birds@;
    let ghost quiet = *sounds;
    let mut j: usize = 0;
    while j < birds.len()
        invariant
            j <= birds.len(),
            birds@.len() == before.len(),
            *player == if any_bird_over(before, start.hitbox, j as int) {
                start.damaged()
            } else {
                start
            },
            *sounds == if any_bird_over(before, start.hitbox, j as int) && start.invincible <= 0 {
                quiet.with(Sound::Hit)
            } else {
                quiet
            },
            start.wf() ==> player.wf(),
            forall|k: int| 0 <= k < j ==> birds@[k] == pecked(before[k], start.hitbox),
            forall|k: int| j <= k < birds@.len() ==> birds@[k] == before[k],
        decreases birds.len() - j,
    {
        let mut bird: Bird = birds[j];
        if bird.hitbox.overlaps(&player.hitbox) {
            player.bird_collision(sounds);
            bird.collision();
            birds.set(j, bird);
            assert(before[j as int].hitbox.spec_overlaps(start.hitbox));
            assert(any_bird_over(before, start.hitbox, j + 1));
        } else {
            assert(any_bird_over(before, start.hitbox, j + 1) ==> any_bird_over(
                before,
                start.hitbox,
                j as int,
            ));
        }
        j = j + 1;
    }
    assert(birds@ =~= birds_after_player(before, start.hitbox));
}

/// The first bird that overlaps a rectangle, or the number of birds.
pub fn first_bird_over(birds: &Vec<Bird>, hitbox: &Rect) -> (j: usize)
    ensures
        j == first_overlap(birds@, *hitbox, 0),
        j <= birds@.len(),
{
    let mut j: usize = 0;
    while j < birds.len()
        invariant
            j <= birds.len(),
            first_overlap(birds@, *hitbox, 0) == first_overlap(birds@, *hitbox, j as int),
        decreases birds.len() - j,
    {
        if birds[j].hitbox.overlaps(hitbox) {
            return j;
        }
        j = j + 1;
    }
    j
}

/// Each flung cloud that overlaps a bird bumps the first such bird and is
/// destroyed.
pub fn collide_things_birds(things: &mut Vec<FlingThing>, birds: &mut Vec<Bird>)
    ensures
        final(things)@ == things_after_birds(old(things)@, old(birds)@),
        final(birds)@ == birds_after(old(birds)@, old(things)@, old(things)@.len() as int),
{
    let ghost clouds = things@;
    let ghost flock = birds@;
    let mut i: usize = 0;
    while i < things.len()
        invariant
            i <= things.len(),
            things@.len() == clouds.len(),
            birds@ == birds_after(flock, clouds, i as int),
            forall|k: int|
                0 <= k < i ==> things@[k] == if strikes_bird(
                    clouds[k],
                    birds_after(flock, clouds, k),
                ) {
                    clouds[k].struck()
                } else {
                    clouds[k]
                },
            forall|k: int| i <= k < things@.len() ==> things@[k] == clouds[k],
        decreases things.len() - i,
    {
        let mut thing: FlingThing = things[i];
        if thing.flung() {
            let j: usize = first_bird_over(birds, &thing.hitbox);
            if j < birds.len() {
                let mut bird: Bird = birds[j];
                bird.collision();
                birds.set(j, bird);
                thing.collision();
                things.set(i, thing);
            }
        }
        i = i + 1;
    }
    assert(things@ =~= things_after_birds(clouds, flock));
}

/// A thunder cloud that touches the player, with its cloud or its bolt,
/// hits the player.
pub fn collide_lightning_player(
    player: &mut Player,
    lightning: &Option<Lightning>,
    sounds: &mut Sounds,
)
    ensures
        *final(player) == player_after_lightning(*old(player), *lightning),
        old(player).wf() ==> final(player).wf(),
        *final(sounds) == if lightning_over(*lightning, old(player).hitbox) && old(
            player,
        ).invincible <= 0 {
            old(sounds).with(Sound::Hit)
        } else {
            *old(sounds)
        },
{
    if let Some(cloud) = lightning {
        if cloud.collides_with(&player.hitbox) {
            player.lightning_collision(sounds);
        }
    }
}

/// The first overlap depends on the birds' hitboxes alone.
pub proof fn lemma_first_overlap_by_hitboxes(a: Seq<Bird>, b: Seq<Bird>, hitbox: Rect, from: int)
    requires
        0 <= from,
        a.len() == b.len(),
        forall|j: int| 0 <= j < a.len() ==> (#[trigger] a[j]).hitbox == b[j].hitbox,
    ensures
        first_overlap(a, hitbox, from) == first_overlap(b, hitbox, from),
    decreases a.len() - from,
{
    if from < a.len() && !a[from].hitbox.spec_overlaps(hitbox) {
        lemma_first_overlap_by_hitboxes(a, b, hitbox, from + 1);
    }
}

/// Whether a cloud strikes a bird does not depend on the turns that other
/// clouds have had: a cloud is destroyed in the pass against the birds
/// exactly when it is in flung motion and overlaps one of the birds as they
/// were before the pass.
pub proof fn lemma_strike_is_independent(birds: Seq<Bird>, things: Seq<FlingThing>, i: int)
    requires
        0 <= i < things.len(),
    ensures
        strikes_bird(things[i], birds_after(birds, things, i)) == strikes_bird(things[i], birds),
        things_after_birds(things, birds)[i] == if strikes_bird(things[i], birds) {
            things[i].struck()
        } else {
            things[i]
        },
{
    lemma_birds_keep_hitboxes(birds, things, i);
    lemma_first_overlap_by_hitboxes(birds_after(birds, things, i), birds, things[i].hitbox, 0);
}

/// Destroyed clouds take no part in the pass against the player: they stay
/// as they are, and the player is as if they were not there.
pub proof fn lemma_destroyed_clouds_are_passed_over(player: Player, things: Seq<FlingThing>, n: int)
    requires
        0 <= n <= things.len(),
        forall|i: int| 0 <= i < n ==> (#[trigger] things[i]).state == FlingState::Destroyed,
    ensures
        touch_all(player, things, n) == player,
        forall|i: int|
            0 <= i < n ==> (#[trigger] things_after_player(things, player.hitbox)[i]) == things[i],
    decreases n,
{
    if n > 0 {
        lemma_destroyed_clouds_are_passed_over(player, things, n - 1);
    }
}

} // verus!
