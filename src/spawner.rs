//! The obstacle spawn timer and obstacle placement.
use vstd::prelude::*;
use rand::Rng;
use crate::geometry::Vec2;
use crate::world::{
    axis_high, axis_low, footprint_fits, footprint_radius_spec, new_entity, placed, Circle, EntityId, EntityKind,
    Entity, Footprint, SpawnTimer, Transform, Viewport, World,
};

verus! {

/// Milliseconds between obstacle spawns.
pub const SPAWN_COOLDOWN: i64 = 2000;

/// Relies on rand's `thread_rng().gen_range(0..n)`: a value in `[0, n)`; the
/// range must not be empty, else it panics.
#[verifier::external_body]
fn random_below(n: i64) -> (r: i64)
    requires
        n > 0,
    ensures
        0 <= r < n,
{
    rand::thread_rng().gen_range(0..n)
}

/// Whether the timer fires once this tick's time is taken off.
pub open spec fn timer_fires(t: SpawnTimer, dt: u64) -> bool {
    t.remaining - dt <= 0
}

/// The timer after a tick: reset to its period when it fires, with no catch-up.
pub open spec fn timer_after(t: SpawnTimer, dt: u64) -> SpawnTimer {
    if timer_fires(t, dt) {
        SpawnTimer { remaining: t.cooldown, ..t }
    } else {
        SpawnTimer { remaining: (t.remaining - dt) as i64, ..t }
    }
}

/// The timer can be reduced by `dt` without overflow.
pub open spec fn timer_tick_fits(t: SpawnTimer, dt: u64) -> bool {
    t.remaining - dt >= i64::MIN
}

/// Takes this tick's time off the spawn timer.
pub fn spawn_timer_update_system(timer: &mut SpawnTimer, dt: u64)
    requires
        timer_tick_fits(*old(timer), dt),
    ensures
        final(timer).remaining == old(timer).remaining - dt,
        final(timer).cooldown == old(timer).cooldown,
{
    timer.remaining = (timer.remaining as i128 - dt as i128) as i64;
}

/// Resets a timer that has run out to its full period, with no catch-up, and
/// says whether it had run out.
fn spawn_due(timer: &mut SpawnTimer) -> (due: bool)
    ensures
        due == (old(timer).remaining <= 0),
        *final(timer) == if due {
            SpawnTimer { remaining: old(timer).cooldown, ..*old(timer) }
        } else {
            *old(timer)
        },
{
    if timer.remaining <= 0 {
        timer.remaining = timer.cooldown;
        true
    } else {
        false
    }
}

/// A coordinate drawn from `[axis_low(extent), axis_high(extent))`, or 0 for an empty axis.
fn random_coordinate(extent: i64) -> (r: i64)
    ensures
        extent <= 0 ==> r == 0,
        extent > 0 ==> axis_low(extent as int) <= r < axis_high(extent as int),
{
    if extent <= 0 {
        0
    } else {
        random_below(extent) - extent / 2
    }
}

/// An obstacle at `position` with a proxy sized from its footprint.
pub open spec fn obstacle(id: EntityId, position: Vec2, footprint: Footprint) -> Entity {
    new_entity(
        id,
        EntityKind::Obstacle,
        placed(position, 0),
        None,
        Some(Circle { center: position, radius: footprint_radius_spec(footprint) as u32 }),
    )
}

/// Adds an obstacle at `position` with a proxy sized from its footprint.
pub fn spawn_obstacle_at(world: &mut World, position: Vec2, footprint: Footprint) -> (id: EntityId)
    requires
        old(world).wf(),
        old(world).next_id < u64::MAX,
        footprint_fits(footprint),
    ensures
        final(world).wf(),
        id == old(world).next_id,
        final(world).next_id == old(world).next_id + 1,
        final(world).entities@ == old(world).entities@.push(obstacle(id, position, footprint)),
        final(world).player == old(world).player,
        final(world).spawn_timer == old(world).spawn_timer,
{
    let proxy = Circle { center: position, radius: footprint.radius() };
    world.spawn(EntityKind::Obstacle, Transform::at(position, 0), None, Some(proxy))
}

/// What the spawner needs to run without overflow.
pub open spec fn spawner_fits(world: World, dt: u64, footprint: Footprint) -> bool {
    match world.spawn_timer {
        Some(t) => timer_tick_fits(t, dt) && footprint_fits(footprint) && world.next_id < u64::MAX,
        None => true,
    }
}

/// `p` lies in the play-field, as a spawn position drawn for `viewport`.
pub open spec fn in_spawn_area(p: Vec2, viewport: Viewport) -> bool {
    &&& (viewport.width <= 0 ==> p.x == 0)
    &&& (viewport.width > 0 ==> axis_low(viewport.width as int) <= p.x < axis_high(
        viewport.width as int,
    ))
    &&& (viewport.height <= 0 ==> p.y == 0)
    &&& (viewport.height > 0 ==> axis_low(viewport.height as int) <= p.y < axis_high(
        viewport.height as int,
    ))
}

/// Runs the spawn timer; when it fires, places one obstacle at a uniformly
/// random position in the play-field and returns its identifier. Without a
/// spawn timer nothing happens.
pub fn asteroid_spawner_system(
    world: &mut World,
    dt: u64,
    viewport: Viewport,
    footprint: Footprint,
) -> (r: Option<EntityId>)
    requires
        old(world).wf(),
        spawner_fits(*old(world), dt, footprint),
    ensures
        final(world).wf(),
        final(world).player == old(world).player,
        match old(world).spawn_timer {
            None => {
                &&& r is None
                &&& final(world).spawn_timer is None
                &&& final(world).entities@ == old(world).entities@
                &&& final(world).next_id == old(world).next_id
            },
            Some(t) => {
                &&& final(world).spawn_timer == Some(timer_after(t, dt))
                &&& if timer_fires(t, dt) {
                    &&& r == Some(old(world).next_id)
                    &&& final(world).next_id == old(world).next_id + 1
                    &&& final(world).entities@.len() == old(world).entities@.len() + 1
                    &&& final(world).entities@.drop_last() == old(world).entities@
                    &&& exists|p: Vec2| #[trigger] in_spawn_area(p, viewport)
                        && final(world).entities@.last() == obstacle(old(world).next_id, p, footprint)
                } else {
                    &&& r is None
                    &&& final(world).entities@ == old(world).entities@
                    &&& final(world).next_id == old(world).next_id
                }
            },
        },
{
    let due = match &mut world.spawn_timer {
        None => {
            return None;
        },
        Some(t) => {
            spawn_timer_update_system(t, dt);
            spawn_due(t)
        },
    };
    if !due {
        return None;
    }
    let x = random_coordinate(viewport.width);
    let y = random_coordinate(viewport.height);
    let position = Vec2 { x, y };
    let ghost before = world.entities@;
    let id = spawn_obstacle_at(world, position, footprint);
    assert(world.entities@.drop_last() =~= before);
    assert(in_spawn_area(position, viewport));
    Some(id)
}

/// Sum of a run of tick lengths.
pub open spec fn total_time(dts: Seq<u64>) -> int
    decreases dts.len(),
{
    if dts.len() == 0 {
        0
    } else {
        dts[0] + total_time(dts.drop_first())
    }
}

/// How many times the timer fires over a run of ticks.
pub open spec fn spawn_count(t: SpawnTimer, dts: Seq<u64>) -> nat
    decreases dts.len(),
{
    if dts.len() == 0 {
        0
    } else {
        (if timer_fires(t, dts[0]) { 1nat } else { 0nat }) + spawn_count(
            timer_after(t, dts[0]),
            dts.drop_first(),
        )
    }
}

/// The timer after a run of ticks.
pub open spec fn run_timer(t: SpawnTimer, dts: Seq<u64>) -> SpawnTimer
    decreases dts.len(),
{
    if dts.len() == 0 {
        t
    } else {
        run_timer(timer_after(t, dts[0]), dts.drop_first())
    }
}

proof fn lemma_total_nonneg(dts: Seq<u64>)
    ensures
        total_time(dts) >= 0,
    decreases dts.len(),
{
    if dts.len() > 0 {
        lemma_total_nonneg(dts.drop_first());
    }
}

/// A timer with `remaining > 0` fires exactly once over a run of ticks whose
/// time reaches `remaining` only with its last tick, however long that tick is,
/// and ends reset to its full period.
pub proof fn lemma_fires_once_when_due(t: SpawnTimer, dts: Seq<u64>)
    requires
        t.remaining > 0,
        dts.len() > 0,
        forall|k: int| 0 <= k < dts.len() ==> #[trigger] dts[k] <= i64::MAX,
        total_time(dts.drop_last()) < t.remaining <= total_time(dts),
    ensures
        spawn_count(t, dts) == 1,
        run_timer(t, dts) == (SpawnTimer { remaining: t.cooldown, ..t }),
    decreases dts.len(),
{
    let rest = dts.drop_first();
    if dts.len() == 1 {
        assert(rest.len() == 0);
        assert(dts.drop_last().len() == 0);
        assert(total_time(dts) == dts[0] + total_time(rest));
        assert(timer_fires(t, dts[0]));
        assert(spawn_count(timer_after(t, dts[0]), rest) == 0);
        assert(run_timer(timer_after(t, dts[0]), rest) == timer_after(t, dts[0]));
    } else {
        assert(dts.drop_last().drop_first() =~= rest.drop_last());
        assert(dts.drop_last()[0] == dts[0]);
        assert(total_time(dts.drop_last()) == dts[0] + total_time(rest.drop_last()));
        assert(total_time(dts) == dts[0] + total_time(rest));
        lemma_total_nonneg(rest.drop_last());
        assert(!timer_fires(t, dts[0]));
        let t2 = timer_after(t, dts[0]);
        assert forall|k: int| 0 <= k < rest.len() implies #[trigger] rest[k] <= i64::MAX by {
            assert(rest[k] == dts[k + 1]);
        }
        lemma_fires_once_when_due(t2, rest);
    }
}

/// However many periods a single tick covers, the timer fires once and
/// restarts a full period: there is no catch-up burst.
pub proof fn lemma_no_catch_up(t: SpawnTimer, dt: u64)
    requires
        t.remaining - dt <= 0,
    ensures
        timer_fires(t, dt),
        timer_after(t, dt).remaining == t.cooldown,
        timer_after(t, dt).cooldown == t.cooldown,
{
}

/// Until the accumulated time reaches `remaining`, the timer does not fire.
pub proof fn lemma_quiet_until_due(t: SpawnTimer, dts: Seq<u64>)
    requires
        total_time(dts) < t.remaining,
    ensures
        spawn_count(t, dts) == 0,
        run_timer(t, dts).remaining == t.remaining - total_time(dts),
    decreases dts.len(),
{
    if dts.len() > 0 {
        let rest = dts.drop_first();
        lemma_total_nonneg(rest);
        lemma_fires_once_when_due_helper(t, dts[0]);
        lemma_quiet_until_due(timer_after(t, dts[0]), rest);
    }
}

proof fn lemma_fires_once_when_due_helper(t: SpawnTimer, dt: u64)
    requires
        dt < t.remaining,
    ensures
        !timer_fires(t, dt),
        timer_after(t, dt).remaining == t.remaining - dt,
{
}

} // verus!
