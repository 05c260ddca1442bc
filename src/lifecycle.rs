//! Deferred destruction: collision events mark entities, a sweep removes them.
use vstd::prelude::*;
use crate::collision::CollisionEvent;
use crate::world::{Entity, EntityId, World, ids_ordered};

verus! {

/// Some event names `id`.
pub open spec fn named(events: Seq<CollisionEvent>, id: EntityId) -> bool {
    exists|k: int| 0 <= k < events.len() && ((#[trigger] events[k]).first == id || events[k].second == id)
}

/// `e` after the mark phase of `events`.
pub open spec fn mark_entity(e: Entity, events: Seq<CollisionEvent>) -> Entity {
    Entity { destroyed: e.destroyed || named(events, e.id), ..e }
}

/// The arena after the mark phase of `events`.
pub open spec fn marked(es: Seq<Entity>, events: Seq<CollisionEvent>) -> Seq<Entity> {
    es.map_values(|e: Entity| mark_entity(e, events))
}

/// Whether an entity survives the sweep.
pub open spec fn alive(e: Entity) -> bool {
    !e.destroyed
}

/// The arena after the sweep.
pub open spec fn swept(es: Seq<Entity>) -> Seq<Entity> {
    es.filter(|e: Entity| alive(e))
}

fn is_named(events: &Vec<CollisionEvent>, id: EntityId) -> (r: bool)
    ensures
        r == named(events@, id),
{
    let mut k: usize = 0;
    while k < events.len()
        invariant
            k <= events@.len(),
            forall|m: int| 0 <= m < k ==> !((#[trigger] events@[m]).first == id || events@[m].second == id),
        decreases events@.len() - k,
    {
        if events[k].first == id || events[k].second == id {
            return true;
        }
        k = k + 1;
    }
    false
}

/// Marks both entities of every event for destruction. Marking twice, or an
/// event naming an entity that no longer exists, changes nothing further.
pub fn asteroid_hit_system(world: &mut World, events: &Vec<CollisionEvent>)
    requires
        old(world).wf(),
    ensures
        final(world).wf(),
        final(world).entities@ == marked(old(world).entities@, events@),
        final(world).player == old(world).player,
        final(world).spawn_timer == old(world).spawn_timer,
        final(world).next_id == old(world).next_id,
{
    let n = world.entities.len();
    let mut i: usize = 0;
    while i < n
        invariant
            n == world.entities@.len(),
            i <= n,
            world.player == old(world).player,
            world.spawn_timer == old(world).spawn_timer,
            world.next_id == old(world).next_id,
            world.entities@.len() == old(world).entities@.len(),
            forall|k: int| 0 <= k < i ==> #[trigger] world.entities@[k] == mark_entity(old(world).entities@[k], events@),
            forall|k: int| i <= k < n ==> #[trigger] world.entities@[k] == old(world).entities@[k],
        decreases n - i,
    {
        let mut e = world.entities[i];
        if is_named(events, e.id) {
            e.destroyed = true;
        }
        world.entities.set(i, e);
        i = i + 1;
    }
    assert(world.entities@ =~= marked(old(world).entities@, events@));
}

/// Removes every marked entity, keeping the others in order.
pub fn asteroid_destroy_system(world: &mut World)
    requires
        old(world).wf(),
    ensures
        final(world).wf(),
        final(world).entities@ == swept(old(world).entities@),
        forall|k: int| 0 <= k < final(world).entities@.len() ==> !(#[trigger] final(world).entities@[k]).destroyed,
        final(world).player == old(world).player,
        final(world).spawn_timer == old(world).spawn_timer,
        final(world).next_id == old(world).next_id,
{
    let n = world.entities.len();
    let ghost src = world.entities@;
    let mut kept: Vec<Entity> = Vec::new();
    let mut i: usize = 0;
    while i < n
        invariant
            src == old(world).entities@,
            world.entities@ == src,
            ids_ordered(src, world.next_id as int),
            n == src.len(),
            i <= n,
            kept@ == swept(src.subrange(0, i as int)),
            ids_ordered(kept@, world.next_id as int),
            i < n ==> forall|k: int| 0 <= k < kept@.len() ==> #[trigger] kept@[k].id < src[i as int].id,
        decreases n - i,
    {
        let e = world.entities[i];
        proof {
            assert(src.subrange(0, i + 1) =~= src.subrange(0, i as int).push(e));
            src.subrange(0, i as int).lemma_filter_push(e, |e: Entity| alive(e));
        }
        if !e.destroyed {
            kept.push(e);
        }
        i = i + 1;
    }
    assert(src.subrange(0, n as int) =~= src);
    world.entities = kept;
    proof {
        lemma_sweep_removes_marked(src, world.next_id as int);
    }
}

/// Marking is idempotent: a second mark phase with the same events leaves the
/// arena as the first one did.
pub proof fn lemma_mark_idempotent(es: Seq<Entity>, events: Seq<CollisionEvent>)
    ensures
        marked(marked(es, events), events) == marked(es, events),
{
    assert(marked(marked(es, events), events) =~= marked(es, events));
}

/// Events that name no existing entity leave the arena unchanged, and the
/// sweep after them removes nothing.
pub proof fn lemma_stale_events_are_no_ops(es: Seq<Entity>, events: Seq<CollisionEvent>)
    requires
        forall|i: int| 0 <= i < es.len() ==> !named(events, #[trigger] es[i].id),
        forall|i: int| 0 <= i < es.len() ==> !(#[trigger] es[i]).destroyed,
    ensures
        marked(es, events) == es,
        swept(marked(es, events)) == es,
{
    assert(marked(es, events) =~= es);
    lemma_swept_unmarked(es);
}

/// The sweep removes each entity at most once: what survives holds every
/// unmarked entity, no marked one, and nothing twice when identifiers are distinct.
pub proof fn lemma_sweep_removes_marked(es: Seq<Entity>, next_id: int)
    requires
        ids_ordered(es, next_id),
    ensures
        ids_ordered(swept(es), next_id),
        forall|k: int| 0 <= k < swept(es).len() ==> !(#[trigger] swept(es)[k]).destroyed,
        forall|i: int| 0 <= i < es.len() && !es[i].destroyed ==> #[trigger] swept(es).contains(es[i]),
        forall|e: Entity| #[trigger] swept(es).contains(e) ==> es.contains(e),
    decreases es.len(),
{
    reveal(Seq::filter);
    broadcast use Seq::lemma_filter_contains, Seq::lemma_filter_pred;
    if es.len() > 0 {
        let init = es.drop_last();
        assert(ids_ordered(init, next_id));
        lemma_sweep_removes_marked(init, next_id);
        let s = swept(es);
        let si = swept(init);
        assert forall|e: Entity| #[trigger] s.contains(e) implies es.contains(e) by {
            if si.contains(e) {
                let m = choose|m: int| 0 <= m < init.len() && init[m] == e;
                assert(es[m] == e);
            } else {
                assert(e == es.last());
            }
        }
        if alive(es.last()) {
            assert(s == si.push(es.last()));
            assert forall|k: int| 0 <= k < si.len() implies #[trigger] si[k].id < es.last().id by {
                assert(si.contains(si[k]));
                let m = choose|m: int| 0 <= m < init.len() && init[m] == si[k];
                assert(es[m] == si[k]);
            }
        }
    }
}

proof fn lemma_swept_unmarked(es: Seq<Entity>)
    requires
        forall|i: int| 0 <= i < es.len() ==> !(#[trigger] es[i]).destroyed,
    ensures
        swept(es) == es,
    decreases es.len(),
{
    reveal(Seq::filter);
    if es.len() > 0 {
        lemma_swept_unmarked(es.drop_last());
        assert(swept(es) =~= swept(es.drop_last()).push(es.last()));
        assert(es.drop_last().push(es.last()) =~= es);
    }
}

} // verus!
