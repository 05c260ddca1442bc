//! Circle-proxy collision detection and proxy synchronisation.
use vstd::prelude::*;
use crate::world::{Circle, Entity, EntityId, World};

verus! {

/// An unordered pair of colliding entities, stored with `first < second`.
#[derive(Clone, Copy, Debug, PartialEq, Eq, Structural)]
pub struct CollisionEvent {
    pub first: EntityId,
    pub second: EntityId,
}

/// The canonical event for the pair `a`, `b`.
pub open spec fn canonical(a: EntityId, b: EntityId) -> CollisionEvent {
    if a < b {
        CollisionEvent { first: a, second: b }
    } else {
        CollisionEvent { first: b, second: a }
    }
}

/// The distance between the centers is less than the sum of the radii.
pub open spec fn overlaps(a: Circle, b: Circle) -> bool {
    let dx = a.center.x - b.center.x;
    let dy = a.center.y - b.center.y;
    let reach = a.radius + b.radius;
    dx * dx + dy * dy < reach * reach
}

/// Entities `i` and `j` are distinct, both carry a proxy, and the proxies overlap.
pub open spec fn pair_collides(es: Seq<Entity>, i: int, j: int) -> bool {
    &&& 0 <= i < es.len()
    &&& 0 <= j < es.len()
    &&& es[i].id != es[j].id
    &&& es[i].proxy is Some
    &&& es[j].proxy is Some
    &&& overlaps(es[i].proxy->0, es[j].proxy->0)
}

/// `e` is the event of some colliding pair.
pub open spec fn is_collision(es: Seq<Entity>, e: CollisionEvent) -> bool {
    exists|i: int, j: int| #[trigger]
        pair_collides(es, i, j) && e == canonical(es[i].id, es[j].id)
}

/// Exact overlap test; far-apart circles are rejected before any squaring.
pub fn circles_overlap(a: &Circle, b: &Circle) -> (r: bool)
    ensures
        r == overlaps(*a, *b),
{
    let dx: i128 = a.center.x as i128 - b.center.x as i128;
    let dy: i128 = a.center.y as i128 - b.center.y as i128;
    let reach: i128 = a.radius as i128 + b.radius as i128;
    let ax: i128 = if dx >= 0 { dx } else { -dx };
    let ay: i128 = if dy >= 0 { dy } else { -dy };
    if ax >= reach || ay >= reach {
        assert(!overlaps(*a, *b)) by (nonlinear_arith)
            requires
                ax >= reach || ay >= reach,
                ax == dx || ax == -dx,
                ay == dy || ay == -dy,
                ax >= 0,
                ay >= 0,
                reach >= 0,
                dx == a.center.x - b.center.x,
                dy == a.center.y - b.center.y,
                reach == a.radius + b.radius,
        ;
        return false;
    }
    assert(ax * ax < 0x4_0000_0000_0000_0000 && ay * ay < 0x4_0000_0000_0000_0000
        && reach * reach < 0x4_0000_0000_0000_0000) by (nonlinear_arith)
        requires
            0 <= ax < reach,
            0 <= ay < reach,
            reach < 0x2_0000_0000,
    ;
    assert(ax * ax == dx * dx && ay * ay == dy * dy) by (nonlinear_arith)
        requires
            ax == dx || ax == -dx,
            ay == dy || ay == -dy,
    ;
    ax * ax + ay * ay < reach * reach
}

fn canonical_exec(a: EntityId, b: EntityId) -> (r: CollisionEvent)
    ensures
        r == canonical(a, b),
{
    if a < b {
        CollisionEvent { first: a, second: b }
    } else {
        CollisionEvent { first: b, second: a }
    }
}

fn listed(events: &Vec<CollisionEvent>, e: CollisionEvent) -> (r: bool)
    ensures
        r == events@.contains(e),
{
    let mut k: usize = 0;
    while k < events.len()
        invariant
            k <= events@.len(),
            forall|m: int| 0 <= m < k ==> events@[m] != e,
        decreases events@.len() - k,
    {
        if events[k].first == e.first && events[k].second == e.second {
            assert(events@[k as int] == e);
            return true;
        }
        k = k + 1;
    }
    false
}

/// Tests every ordered pair of proxy-bearing entities and returns one event for
/// each overlapping unordered pair, without duplicates or self-pairs.
///
/// Quadratic in the number of entities: the place to add spatial partitioning
/// should entity counts grow.
pub fn circle_collision_system(world: &World) -> (events: Vec<CollisionEvent>)
    ensures
        events@.no_duplicates(),
        forall|k: int| 0 <= k < events@.len() ==> #[trigger] events@[k].first < events@[k].second,
        forall|e: CollisionEvent| #[trigger]
            events@.contains(e) <==> is_collision(world.entities@, e),
{
    let es = &world.entities;
    let n = es.len();
    let mut events: Vec<CollisionEvent> = Vec::new();
    let mut i: usize = 0;
    while i < n
        invariant
            n == es@.len(),
            i <= n,
            events@.no_duplicates(),
            forall|k: int| 0 <= k < events@.len() ==> #[trigger] events@[k].first < events@[k].second,
            forall|k: int| 0 <= k < events@.len() ==> is_collision(es@, #[trigger] events@[k]),
            forall|a: int, b: int|
                0 <= a < i && #[trigger] pair_collides(es@, a, b) ==> events@.contains(
                    canonical(es@[a].id, es@[b].id),
                ),
        decreases n - i,
    {
        let mut j: usize = 0;
        while j < n
            invariant
                n == es@.len(),
                i < n,
                j <= n,
                events@.no_duplicates(),
                forall|k: int| 0 <= k < events@.len() ==> #[trigger] events@[k].first < events@[k].second,
                forall|k: int| 0 <= k < events@.len() ==> is_collision(es@, #[trigger] events@[k]),
                forall|a: int, b: int|
                    (0 <= a < i || (a == i && 0 <= b < j)) && #[trigger] pair_collides(es@, a, b)
                        ==> events@.contains(canonical(es@[a].id, es@[b].id)),
            decreases n - j,
        {
            let ei = es[i];
            let ej = es[j];
            if ei.id != ej.id {
                match (ei.proxy, ej.proxy) {
                    (Some(ci), Some(cj)) => {
                        if circles_overlap(&ci, &cj) {
                            let e = canonical_exec(ei.id, ej.id);
                            assert(pair_collides(es@, i as int, j as int));
                            if !listed(&events, e) {
                                let ghost before = events@;
                                events.push(e);
                                proof {
                                    assert(events@[events@.len() - 1] == e);
                                    assert forall|a: int, b: int|
                                        (0 <= a < i || (a == i && 0 <= b < j))
                                            && #[trigger] pair_collides(es@, a, b) implies
                                        events@.contains(canonical(es@[a].id, es@[b].id)) by {
                                        let c = canonical(es@[a].id, es@[b].id);
                                        assert(before.contains(c));
                                        let m = choose|m: int| 0 <= m < before.len() && before[m] == c;
                                        assert(events@[m] == c);
                                    }
                                    assert forall|k: int| 0 <= k < events@.len() implies
                                        is_collision(es@, #[trigger] events@[k]) by {
                                        if k < before.len() {
                                            assert(events@[k] == before[k]);
                                        }
                                    }
                                    assert forall|p: int, q: int|
                                        0 <= p < events@.len() && 0 <= q < events@.len() && p != q
                                        implies events@[p] != events@[q] by {
                                        if p < before.len() && q < before.len() {
                                            assert(events@[p] == before[p]);
                                            assert(events@[q] == before[q]);
                                        } else if p < before.len() {
                                            assert(events@[p] == before[p]);
                                        } else {
                                            assert(events@[q] == before[q]);
                                        }
                                    }
                                }
                            }
                        }
                    },
                    _ => {},
                }
            }
            j = j + 1;
        }
        i = i + 1;
    }
    proof {
        assert forall|e: CollisionEvent| #[trigger]
            events@.contains(e) implies is_collision(es@, e) by {
            let m = choose|m: int| 0 <= m < events@.len() && events@[m] == e;
            assert(is_collision(es@, events@[m]));
        }
        assert forall|e: CollisionEvent| is_collision(es@, e) implies #[trigger]
            events@.contains(e) by {
            let (a, b) = choose|a: int, b: int| #[trigger]
                pair_collides(es@, a, b) && e == canonical(es@[a].id, es@[b].id);
            assert(pair_collides(es@, a, b));
        }
    }
    events
}

/// Copies each entity's position into its proxy's center.
pub fn circle_update_system(world: &mut World)
    ensures
        final(world).player == old(world).player,
        final(world).spawn_timer == old(world).spawn_timer,
        final(world).next_id == old(world).next_id,
        final(world).entities@ == old(world).entities@.map_values(|e: Entity| synced(e)),
{
    let n = world.entities.len();
    let mut i: usize = 0;
    while i < n
        invariant
            n == world.entities@.len(),
            i <= n,
            world.player == old(world).player,
            world.spawn_timer == old(world).spawn_timer,
            world.next_id == old(world).next_id,
            world.entities@.len() == old(world).entities@.len(),
            forall|k: int| 0 <= k < i ==> #[trigger] world.entities@[k] == synced(old(world).entities@[k]),
            forall|k: int| i <= k < n ==> #[trigger] world.entities@[k] == old(world).entities@[k],
        decreases n - i,
    {
        let mut e = world.entities[i];
        match e.proxy {
            Some(c) => {
                e.proxy = Some(Circle { center: e.transform.position, radius: c.radius });
            },
            None => {},
        }
        world.entities.set(i, e);
        i = i + 1;
    }
    assert(world.entities@ =~= old(world).entities@.map_values(|e: Entity| synced(e)));
}

/// An entity whose proxy, if any, is centered on its position.
pub open spec fn synced(e: Entity) -> Entity {
    match e.proxy {
        Some(c) => Entity { proxy: Some(Circle { center: e.transform.position, radius: c.radius }), ..e },
        None => e,
    }
}

} // verus!
