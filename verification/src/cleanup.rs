//! The despawning pass of a frame.
use vstd::prelude::*;
use vstd::multiset::{group_multiset_axioms, Multiset};
use vstd::seq_lib::{to_multiset_remove, to_multiset_update};
use crate::bird::Bird;
use crate::camera::Camera;
use crate::fling::{FlingState, FlingThing};
use crate::geometry::Rect;

verus! {

/// A sequence without the element at `i`, the last element moved into its
/// place.
pub open spec fn swap_removed<T>(s: Seq<T>, i: int) -> Seq<T> {
    s.update(i, s.last()).drop_last()
}

/// A sequence after the lost ones among its first `n` items have been
/// removed, from the last down to the first, each replaced by the item then
/// last. This fixes the order in which the items that stay are left.
pub open spec fn swept<T>(s: Seq<T>, lost: spec_fn(T) -> bool, n: int) -> Seq<T>
    decreases n,
{
    if n <= 0 {
        s
    } else if lost(s[n - 1]) {
        swept(swap_removed(s, n - 1), lost, n - 1)
    } else {
        swept(s, lost, n - 1)
    }
}

/// The items of a sequence that are not lost, each as often as it occurs.
pub open spec fn kept<T>(s: Seq<T>, lost: spec_fn(T) -> bool) -> Multiset<T> {
    s.to_multiset().filter(|item: T| !lost(item))
}

/// A bird is lost once its hitbox has left the play zone.
pub open spec fn bird_lost(bird: Bird, zone: Rect) -> bool {
    !bird.hitbox.spec_overlaps(zone)
}

/// A cloud is lost once it has been destroyed, wherever it is, or has left
/// the play zone while above the camera's target. The destroyed clouds are
/// not asked to have left the zone: they go at once.
pub open spec fn thing_lost(thing: FlingThing, camera: Camera) -> bool {
    (!thing.hitbox.spec_overlaps(camera.play_zone()) && thing.hitbox.y < camera.target.y)
        || thing.state == FlingState::Destroyed
}

/// The test by which birds are lost, for a play zone.
pub open spec fn lost_birds(zone: Rect) -> spec_fn(Bird) -> bool {
    |bird: Bird| bird_lost(bird, zone)
}

/// The test by which clouds are lost, for a camera.
pub open spec fn lost_things(camera: Camera) -> spec_fn(FlingThing) -> bool {
    |thing: FlingThing| thing_lost(thing, camera)
}

/// The birds after the lost ones among the first `n` have been removed, in
/// the order in which the sweep leaves them.
pub open spec fn birds_swept(birds: Seq<Bird>, zone: Rect, n: int) -> Seq<Bird> {
    swept(birds, lost_birds(zone), n)
}

/// The clouds after the lost ones among the first `n` have been removed, in
/// the order in which the sweep leaves them.
pub open spec fn things_swept(things: Seq<FlingThing>, camera: Camera, n: int) -> Seq<FlingThing> {
    swept(things, lost_things(camera), n)
}

/// The birds that are not lost, each as often as it occurs.
pub open spec fn birds_kept(birds: Seq<Bird>, zone: Rect) -> Multiset<Bird> {
    kept(birds, lost_birds(zone))
}

/// The clouds that are not lost, each as often as it occurs.
pub open spec fn things_kept(things: Seq<FlingThing>, camera: Camera) -> Multiset<FlingThing> {
    kept(things, lost_things(camera))
}

/// Removes the birds that have left the play zone: what is left is the
/// birds that are not lost, none doubled and none missing, in the order
/// that removal from the back gives.
pub fn sweep_birds(birds: &mut Vec<Bird>, zone: &Rect)
    ensures
        final(birds)@.to_multiset() == birds_kept(old(birds)@, *zone),
        final(birds)@ == birds_swept(old(birds)@, *zone, old(birds)@.len() as int),
{
    let mut i: usize = birds.len();
    while i > 0
        invariant
            i <= birds.len(),
            birds_swept(old(birds)@, *zone, old(birds)@.len() as int) == birds_swept(
                birds@,
                *zone,
                i as int,
            ),
        decreases i,
    {
        i = i - 1;
        if !birds[i].hitbox.overlaps(zone) {
            birds.swap_remove(i);
        }
    }
    proof {
        lemma_swept_is_kept(old(birds)@, lost_birds(*zone), old(birds)@.len() as int);
    }
}

/// Removes the clouds that are destroyed or have scrolled out of play: what
/// is left is the clouds that are not lost, none doubled and none missing,
/// in the order that removal from the back gives.
pub fn sweep_things(things: &mut Vec<FlingThing>, camera: &Camera)
    ensures
        final(things)@.to_multiset() == things_kept(old(things)@, *camera),
        final(things)@ == things_swept(old(things)@, *camera, old(things)@.len() as int),
{
    let zone: Rect = camera.zone();
    let mut i: usize = things.len();
    while i > 0
        invariant
            i <= things.len(),
            zone == camera.play_zone(),
            things_swept(old(things)@, *camera, old(things)@.len() as int) == things_swept(
                things@,
                *camera,
                i as int,
            ),
        decreases i,
    {
        i = i - 1;
        let thing: FlingThing = things[i];
        if !thing.hitbox.overlaps(&zone) && thing.hitbox.y < camera.target.y
            || thing.should_destroy() {
            things.swap_remove(i);
        }
    }
    proof {
        lemma_swept_is_kept(old(things)@, lost_things(*camera), old(things)@.len() as int);
    }
}

/// Removing an item by moving the last into its place takes that item, once,
/// out of the multiset of items and changes nothing else.
pub proof fn lemma_swap_removed_multiset<T>(s: Seq<T>, i: int)
    requires
        0 <= i < s.len(),
    ensures
        swap_removed(s, i).to_multiset() == s.to_multiset().remove(s[i]),
{
    broadcast use group_multiset_axioms;

    let moved = s.update(i, s.last());
    to_multiset_update(s, i, s.last());
    assert(moved.drop_last() =~= moved.remove(moved.len() - 1));
    to_multiset_remove(moved, moved.len() - 1);
    assert(moved[moved.len() - 1] == s.last());
    s.to_multiset_ensures();
    assert(s.contains(s[i]));
    assert(s.contains(s.last()));
    assert(swap_removed(s, i).to_multiset() =~= s.to_multiset().remove(s[i]));
}

/// Once the first `n` items have been swept, what is left is the multiset
/// of the items that are not lost, provided that none of the others was
/// lost: no lost item is left, and every other item is left exactly as
/// often as it was there.
pub proof fn lemma_swept_is_kept<T>(s: Seq<T>, lost: spec_fn(T) -> bool, n: int)
    requires
        0 <= n <= s.len(),
        forall|k: int| n <= k < s.len() ==> !lost(#[trigger] s[k]),
    ensures
        swept(s, lost, n).to_multiset() == kept(s, lost),
    decreases n,
{
    broadcast use group_multiset_axioms;

    if n == 0 {
        assert forall|item: T| #[trigger]
            s.to_multiset().count(item) == kept(s, lost).count(item) by {
            if lost(item) && s.to_multiset().count(item) > 0 {
                s.to_multiset_ensures();
                assert(s.contains(item));
                let at = choose|at: int| 0 <= at < s.len() && s[at] == item;
                assert(!lost(s[at]));
            }
        }
        assert(s.to_multiset() =~= kept(s, lost));
    } else if lost(s[n - 1]) {
        let rest = swap_removed(s, n - 1);
        assert forall|k: int| n - 1 <= k < rest.len() implies !lost(#[trigger] rest[k]) by {
            if k == n - 1 {
                assert(rest[k] == s[s.len() - 1]);
            } else {
                assert(rest[k] == s[k]);
            }
        }
        lemma_swept_is_kept(rest, lost, n - 1);
        lemma_swap_removed_multiset(s, n - 1);
        assert(kept(rest, lost) =~= kept(s, lost));
    } else {
        lemma_swept_is_kept(s, lost, n - 1);
    }
}

/// Once the first `n` items have been swept, no lost item is left, provided
/// that none of the others was lost; every item left was there before, and
/// every item that was not lost is still there.
pub proof fn lemma_no_lost_left<T>(s: Seq<T>, lost: spec_fn(T) -> bool, n: int)
    requires
        0 <= n <= s.len(),
        forall|k: int| n <= k < s.len() ==> !lost(#[trigger] s[k]),
    ensures
        swept(s, lost, n).len() <= s.len(),
        forall|k: int| 0 <= k < swept(s, lost, n).len() ==> !lost(#[trigger] swept(s, lost, n)[k]),
        forall|k: int|
            0 <= k < swept(s, lost, n).len() ==> s.contains(#[trigger] swept(s, lost, n)[k]),
        forall|k: int|
            0 <= k < s.len() && !lost(#[trigger] s[k]) ==> swept(s, lost, n).contains(s[k]),
{
    broadcast use group_multiset_axioms;

    lemma_swept_is_kept(s, lost, n);
    let left = swept(s, lost, n);
    left.to_multiset_ensures();
    s.to_multiset_ensures();
    assert forall|k: int| 0 <= k < left.len() implies !lost(#[trigger] left[k]) && s.contains(
        left[k],
    ) by {
        assert(left.contains(left[k]));
        assert(kept(s, lost).count(left[k]) > 0);
    }
    assert forall|k: int| 0 <= k < s.len() && !lost(#[trigger] s[k]) implies left.contains(
        s[k],
    ) by {
        assert(s.contains(s[k]));
        assert(kept(s, lost).count(s[k]) > 0);
    }
    lemma_swept_is_no_longer(s, lost, n);
}

/// Sweeping never makes a sequence longer.
pub proof fn lemma_swept_is_no_longer<T>(s: Seq<T>, lost: spec_fn(T) -> bool, n: int)
    requires
        0 <= n <= s.len(),
    ensures
        swept(s, lost, n).len() <= s.len(),
    decreases n,
{
    if n > 0 {
        if lost(s[n - 1]) {
            lemma_swept_is_no_longer(swap_removed(s, n - 1), lost, n - 1);
        } else {
            lemma_swept_is_no_longer(s, lost, n - 1);
        }
    }
}

} // verus!
