//! World setup and the fixed per-tick order of the systems.
use vstd::prelude::*;
use crate::collision::{
    circle_collision_system, circle_update_system, is_collision, synced, CollisionEvent,
};
use crate::geometry::Vec2;
use crate::lifecycle::{asteroid_destroy_system, asteroid_hit_system, marked, swept};
use crate::movement::{
    apply_velocity_system, can_integrate, can_move, integrated, integration_fits, move_fits,
    player_integrated, player_move_system, player_moved, player_wrap_system, player_wrapped,
    MoveKeys,
};
use crate::spawner::{
    asteroid_spawner_system, in_spawn_area, obstacle, timer_after, timer_fires, timer_tick_fits,
    SPAWN_COOLDOWN,
};
use crate::targeting::{player_target_system, player_targeted};
use crate::weapon::{
    player_after_shot, player_shoot_system, projectile, shot_fired, weapon_tick_fits,
};
use crate::world::{
    footprint_fits, new_entity, new_player, placed, Entity, EntityId, EntityKind, Footprint,
    Player, SpawnTimer, Transform, Viewport, World,
};

verus! {

/// Layer of the background, behind everything else.
pub const BACKGROUND_LAYER: i64 = -1;

/// Rate of fire of the starting weapon: one shot per second.
pub const STARTING_RATE_OF_FIRE: i64 = 1000;

/// Everything the outside world hands the simulation for one tick.
#[derive(Clone, Copy, Debug, PartialEq, Eq, Structural)]
pub struct TickInput {
    pub dt: u64,
    pub pointer: Option<Vec2>,
    pub keys: MoveKeys,
    pub fire_held: bool,
}

/// Sprite sizes from which proxies are sized.
#[derive(Clone, Copy, Debug, PartialEq, Eq, Structural)]
pub struct Footprints {
    pub bullet: Footprint,
    pub obstacle: Footprint,
}

/// What a tick produced.
#[derive(Debug)]
pub struct TickReport {
    pub fired: Option<EntityId>,
    pub spawned: Option<EntityId>,
    pub collisions: Vec<CollisionEvent>,
}

/// The world at start: the player at the origin with a railgun firing once a
/// second, a background, and a spawn timer that fires on the first tick.
pub fn setup_system() -> (w: World)
    ensures
        w.wf(),
        w.player matches Some(p) && p.transform == placed(Vec2 { x: 0, y: 0 }, 0) && p.velocity.is_zero()
            && p.target.is_zero() && p.weapon.rate_of_fire == STARTING_RATE_OF_FIRE
            && p.weapon.cooldown == 0 && p.weapon.name@ == "Railgun"@,
        w.entities@ == seq![
            new_entity(0, EntityKind::Background, placed(Vec2 { x: 0, y: 0 }, BACKGROUND_LAYER), None, None),
        ],
        w.spawn_timer == Some(SpawnTimer { remaining: 0, cooldown: SPAWN_COOLDOWN }),
        w.next_id == 1,
{
    let mut w = World::new();
    w.player = Some(new_player("Railgun".to_string(), STARTING_RATE_OF_FIRE));
    w.spawn(
        EntityKind::Background,
        Transform::at(Vec2::zero(), BACKGROUND_LAYER),
        None,
        None,
    );
    w.spawn_timer = Some(SpawnTimer { remaining: 0, cooldown: SPAWN_COOLDOWN });
    assert(w.entities@ =~= seq![
        new_entity(0, EntityKind::Background, placed(Vec2 { x: 0, y: 0 }, BACKGROUND_LAYER), None, None),
    ]);
    proof {
        reveal_strlit("Railgun");
    }
    w
}

/// The player, the arena and the next identifier, between two systems of a tick.
pub type Stage = (Option<Player>, Seq<Entity>, u64);

/// Aiming.
pub open spec fn stage_target(s: Stage, input: TickInput, viewport: Viewport) -> Stage {
    match s.0 {
        Some(p) => (Some(player_targeted(p, input.pointer, viewport)), s.1, s.2),
        None => s,
    }
}

/// The shoot system runs: there is no player, or its arithmetic fits.
pub open spec fn shoot_runs(s: Stage, dt: u64, bullet: Footprint) -> bool {
    match s.0 {
        Some(p) => weapon_tick_fits(p.weapon, dt) && footprint_fits(bullet) && s.2 < u64::MAX,
        None => true,
    }
}

/// A projectile is fired.
pub open spec fn stage_fires(s: Stage, input: TickInput, bullet: Footprint) -> bool {
    shoot_runs(s, input.dt, bullet) && (s.0 matches Some(p) && shot_fired(p, input.dt, input.fire_held))
}

/// Firing, or the whole system skipped when its arithmetic would overflow.
pub open spec fn stage_shoot(s: Stage, input: TickInput, bullet: Footprint) -> Stage {
    if !shoot_runs(s, input.dt, bullet) {
        s
    } else {
        match s.0 {
            Some(p) => if shot_fired(p, input.dt, input.fire_held) {
                (
                    Some(player_after_shot(p, input.dt, input.fire_held)),
                    s.1.push(projectile(s.2, p, bullet)),
                    (s.2 + 1) as u64,
                )
            } else {
                (Some(player_after_shot(p, input.dt, input.fire_held)), s.1, s.2)
            },
            None => s,
        }
    }
}

/// Thrust and heading, skipped when the new velocity would overflow.
pub open spec fn stage_move(s: Stage, input: TickInput) -> Stage {
    match s.0 {
        Some(p) => if move_fits(p, input.dt, input.keys) {
            (Some(player_moved(p, input.dt, input.keys)), s.1, s.2)
        } else {
            s
        },
        None => s,
    }
}

/// Integration, skipped when a position would overflow.
pub open spec fn stage_integrate(s: Stage, dt: u64) -> Stage {
    if integration_fits(s.0, s.1, dt) {
        (
            match s.0 {
                Some(p) => Some(player_integrated(p, dt)),
                None => None,
            },
            s.1.map_values(|e: Entity| integrated(e, dt)),
            s.2,
        )
    } else {
        s
    }
}

/// Screen wrap.
pub open spec fn stage_wrap(s: Stage, viewport: Viewport) -> Stage {
    match s.0 {
        Some(p) => (Some(player_wrapped(p, viewport)), s.1, s.2),
        None => s,
    }
}

/// The state after every system before the spawner.
pub open spec fn before_spawn(
    s: Stage,
    input: TickInput,
    viewport: Viewport,
    footprints: Footprints,
) -> Stage {
    stage_wrap(
        stage_integrate(
            stage_move(stage_shoot(stage_target(s, input, viewport), input, footprints.bullet), input),
            input.dt,
        ),
        viewport,
    )
}

/// The spawner runs: there is no timer, or its arithmetic fits.
pub open spec fn spawner_runs(t: Option<SpawnTimer>, next_id: u64, dt: u64, footprint: Footprint) -> bool {
    match t {
        Some(t) => timer_tick_fits(t, dt) && footprint_fits(footprint) && next_id < u64::MAX,
        None => true,
    }
}

/// An obstacle is spawned.
pub open spec fn stage_spawns(t: Option<SpawnTimer>, next_id: u64, dt: u64, footprint: Footprint) -> bool {
    spawner_runs(t, next_id, dt, footprint) && (t matches Some(tm) && timer_fires(tm, dt))
}

/// The spawn timer after the tick.
pub open spec fn timer_after_tick(t: Option<SpawnTimer>, next_id: u64, dt: u64, footprint: Footprint) -> Option<SpawnTimer> {
    match t {
        Some(tm) => if spawner_runs(t, next_id, dt, footprint) {
            Some(timer_after(tm, dt))
        } else {
            t
        },
        None => None,
    }
}

/// The arena after the spawner, with the obstacle (if any) placed at `at`.
pub open spec fn arena_after_spawn(s: Stage, spawns: bool, at: Vec2, footprint: Footprint) -> Seq<Entity> {
    if spawns {
        s.1.push(obstacle(s.2, at, footprint))
    } else {
        s.1
    }
}

/// The tail of a tick on arena `es`: proxies synced, `events` exactly the
/// colliding pairs, and `after` what the mark and sweep leave.
pub open spec fn collide_and_sweep(es: Seq<Entity>, events: Seq<CollisionEvent>, after: Seq<Entity>) -> bool {
    let sy = es.map_values(|e: Entity| synced(e));
    &&& forall|e: CollisionEvent| #[trigger] events.contains(e) <==> is_collision(sy, e)
    &&& after == swept(marked(sy, events))
}

/// Runs one tick: aim, fire, move, integrate, wrap, spawn, sync proxies,
/// detect collisions, mark and sweep. A system whose arithmetic would
/// overflow on this tick's values is skipped for the tick.
pub fn tick(
    world: &mut World,
    input: TickInput,
    viewport: Viewport,
    footprints: Footprints,
) -> (report: TickReport)
    requires
        old(world).wf(),
        viewport.wf(),
    ensures
        final(world).wf(),
        ({
            let s0: Stage = (old(world).player, old(world).entities@, old(world).next_id);
            let st = stage_target(s0, input, viewport);
            let s = before_spawn(s0, input, viewport, footprints);
            let spawns = stage_spawns(old(world).spawn_timer, s.2, input.dt, footprints.obstacle);
            &&& report.fired == if stage_fires(st, input, footprints.bullet) {
                Some(old(world).next_id)
            } else {
                None::<EntityId>
            }
            &&& report.spawned == if spawns { Some(s.2) } else { None::<EntityId> }
            &&& final(world).player == s.0
            &&& final(world).spawn_timer == timer_after_tick(
                old(world).spawn_timer,
                s.2,
                input.dt,
                footprints.obstacle,
            )
            &&& final(world).next_id == if spawns { s.2 + 1 } else { s.2 as int }
            &&& exists|at: Vec2| #[trigger]
                in_spawn_area(at, viewport) && collide_and_sweep(
                    arena_after_spawn(s, spawns, at, footprints.obstacle),
                    report.collisions@,
                    final(world).entities@,
                )
        }),
        report.collisions@.no_duplicates(),
        forall|k: int| 0 <= k < report.collisions@.len() ==> #[trigger] report.collisions@[k].first
            < report.collisions@[k].second,
{
    let ghost s0: Stage = (world.player, world.entities@, world.next_id);
    let fired = aim_and_fire(world, input, viewport, footprints.bullet);
    move_player(world, input, viewport);
    let ghost s = before_spawn(s0, input, viewport, footprints);
    let dt = input.dt;
    let spawn_ok = match &world.spawn_timer {
        Some(t) => (t.remaining as i128 - dt as i128 >= i64::MIN as i128) && footprints.obstacle.fits()
            && world.can_spawn(),
        None => true,
    };
    let ghost spawns = stage_spawns(old(world).spawn_timer, s.2, dt, footprints.obstacle);
    let spawned = if spawn_ok {
        asteroid_spawner_system(world, dt, viewport, footprints.obstacle)
    } else {
        None
    };
    let ghost at: Vec2 = if spawns {
        choose|p: Vec2| #[trigger] in_spawn_area(p, viewport) && world.entities@.last() == obstacle(s.2, p, footprints.obstacle)
    } else {
        Vec2 { x: 0, y: 0 }
    };
    let ghost es = arena_after_spawn(s, spawns, at, footprints.obstacle);
    proof {
        if spawns {
            assert(world.entities@ =~= s.1.push(world.entities@.last()));
        } else {
            assert(in_spawn_area(at, viewport));
        }
    }
    assert(world.entities@ == es);
    let collisions = collide_and_sweep_arena(world);
    TickReport { fired, spawned, collisions }
}

/// Aiming and firing, with the shoot system skipped when its arithmetic would overflow.
fn aim_and_fire(world: &mut World, input: TickInput, viewport: Viewport, bullet: Footprint) -> (fired:
    Option<EntityId>)
    requires
        old(world).wf(),
        viewport.wf(),
    ensures
        final(world).wf(),
        final(world).spawn_timer == old(world).spawn_timer,
        ({
            let st = stage_target((old(world).player, old(world).entities@, old(world).next_id), input, viewport);
            &&& (final(world).player, final(world).entities@, final(world).next_id) == stage_shoot(st, input, bullet)
            &&& fired == if stage_fires(st, input, bullet) {
                Some(old(world).next_id)
            } else {
                None::<EntityId>
            }
        }),
{
    let dt = input.dt;
    let ghost s0: Stage = (world.player, world.entities@, world.next_id);
    player_target_system(world, input.pointer, viewport);
    let ghost st = stage_target(s0, input, viewport);
    assert((world.player, world.entities@, world.next_id) == st);
    let shoot_ok = match &world.player {
        Some(p) => (p.weapon.cooldown as i128 - dt as i128 >= i64::MIN as i128) && bullet.fits()
            && world.can_spawn(),
        None => true,
    };
    if shoot_ok {
        player_shoot_system(world, dt, input.fire_held, bullet)
    } else {
        None
    }
}

/// Thrust, integration and wrap, each skipped when its arithmetic would overflow.
fn move_player(world: &mut World, input: TickInput, viewport: Viewport)
    requires
        old(world).wf(),
        viewport.wf(),
    ensures
        final(world).wf(),
        final(world).spawn_timer == old(world).spawn_timer,
        (final(world).player, final(world).entities@, final(world).next_id) == stage_wrap(
            stage_integrate(stage_move((old(world).player, old(world).entities@, old(world).next_id), input), input.dt),
            viewport,
        ),
{
    let dt = input.dt;
    let ghost s1: Stage = (world.player, world.entities@, world.next_id);
    let move_ok = match &world.player {
        Some(p) => can_move(p, dt, input.keys),
        None => false,
    };
    if move_ok {
        match &mut world.player {
            Some(p) => player_move_system(p, dt, input.keys),
            None => {},
        }
    }
    let ghost s2 = stage_move(s1, input);
    assert((world.player, world.entities@, world.next_id) == s2);
    if can_integrate(world, dt) {
        apply_velocity_system(world, dt);
    }
    let ghost s3 = stage_integrate(s2, dt);
    assert((world.player, world.entities@, world.next_id) == s3);
    player_wrap_system(world, viewport);
}

/// Proxy sync, collision detection, mark and sweep.
fn collide_and_sweep_arena(world: &mut World) -> (events: Vec<CollisionEvent>)
    requires
        old(world).wf(),
    ensures
        final(world).wf(),
        final(world).player == old(world).player,
        final(world).spawn_timer == old(world).spawn_timer,
        final(world).next_id == old(world).next_id,
        collide_and_sweep(old(world).entities@, events@, final(world).entities@),
        events@.no_duplicates(),
        forall|k: int| 0 <= k < events@.len() ==> #[trigger] events@[k].first < events@[k].second,
{
    circle_update_system(world);
    let events = circle_collision_system(world);
    asteroid_hit_system(world, &events);
    asteroid_destroy_system(world);
    events
}

} // verus!
