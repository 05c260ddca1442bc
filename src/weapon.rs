//! Weapon cooldown and projectile firing.
use vstd::prelude::*;
use crate::geometry::{scaled_direction, scaled_direction_spec, Vec2};
use crate::world::{
    footprint_fits, footprint_radius_spec, new_entity, placed, Circle, Entity, EntityId, EntityKind,
    Footprint, Player, Transform, Weapon, World,
};

verus! {

/// Projectile speed: 1000 pixels per second.
pub const BULLET_SPEED: i64 = 1_000_000;

/// Milliseconds per second times the thousandths in which a rate of fire is given.
pub const PERIOD_NUMERATOR: i64 = 1_000_000;

/// Milliseconds between shots at `rate` thousandths of a shot per second,
/// rounded down.
pub open spec fn cooldown_period(rate: int) -> int {
    PERIOD_NUMERATOR as int / rate
}

/// Whether a weapon fires this tick: the trigger is pulled, the weapon can fire
/// at all, and its cooldown has run out once this tick's time is taken off.
pub open spec fn weapon_fires(w: Weapon, dt: u64, trigger: bool) -> bool {
    trigger && w.rate_of_fire > 0 && w.cooldown - dt <= 0
}

/// Cooldown left after a tick: reset to a full period on a shot, with no carry
/// of the overshoot; otherwise reduced by the tick's time.
pub open spec fn cooldown_after(w: Weapon, dt: u64, trigger: bool) -> int {
    if weapon_fires(w, dt, trigger) {
        cooldown_period(w.rate_of_fire as int)
    } else {
        w.cooldown - dt
    }
}

/// The cooldown of `w` can be reduced by `dt` without overflow.
pub open spec fn weapon_tick_fits(w: Weapon, dt: u64) -> bool {
    w.cooldown - dt >= i64::MIN
}

/// Runs one tick of a weapon's cooldown and says whether it fires.
pub fn weapon_tick(weapon: &mut Weapon, dt: u64, trigger: bool) -> (fired: bool)
    requires
        weapon_tick_fits(*old(weapon), dt),
    ensures
        fired == weapon_fires(*old(weapon), dt, trigger),
        final(weapon).cooldown == cooldown_after(*old(weapon), dt, trigger),
        final(weapon).rate_of_fire == old(weapon).rate_of_fire,
        final(weapon).name == old(weapon).name,
{
    weapon.cooldown = (weapon.cooldown as i128 - dt as i128) as i64;
    if trigger && weapon.rate_of_fire > 0 && weapon.cooldown <= 0 {
        weapon.cooldown = PERIOD_NUMERATOR / weapon.rate_of_fire;
        true
    } else {
        false
    }
}

/// A shot resets the cooldown to exactly one period, however far the cooldown
/// had run past zero: the overshoot is not carried into the next period.
pub proof fn lemma_cooldown_resets_to_period(w: Weapon, dt: u64)
    requires
        w.rate_of_fire > 0,
        w.cooldown - dt <= 0,
    ensures
        weapon_fires(w, dt, true),
        cooldown_after(w, dt, true) == PERIOD_NUMERATOR / w.rate_of_fire,
{
}

/// The projectile velocity for aim `target`, if the aim has a direction.
pub open spec fn bullet_velocity(target: Vec2) -> Option<Vec2> {
    match scaled_direction_spec(target.x as int, target.y as int, BULLET_SPEED as int) {
        Some(v) => Some(Vec2 { x: v.0 as i64, y: v.1 as i64 }),
        None => None,
    }
}

/// Whether the player fires this tick.
pub open spec fn shot_fired(p: Player, dt: u64, fire_held: bool) -> bool {
    weapon_fires(p.weapon, dt, fire_held && bullet_velocity(p.target) is Some)
}

/// The player after its weapon's tick.
pub open spec fn player_after_shot(p: Player, dt: u64, fire_held: bool) -> Player {
    Player {
        weapon: Weapon {
            cooldown: cooldown_after(p.weapon, dt, fire_held && bullet_velocity(p.target) is Some) as i64,
            ..p.weapon
        },
        ..p
    }
}

/// The projectile fired by `p`: at its position, moving along its aim, with a
/// proxy sized from the bullet footprint.
pub open spec fn projectile(id: EntityId, p: Player, bullet: Footprint) -> Entity {
    new_entity(
        id,
        EntityKind::Projectile,
        placed(p.transform.position, p.transform.layer),
        bullet_velocity(p.target),
        Some(Circle { center: p.transform.position, radius: footprint_radius_spec(bullet) as u32 }),
    )
}

/// What the shoot system needs to run without overflow.
pub open spec fn shoot_fits(world: World, dt: u64, bullet: Footprint) -> bool {
    match world.player {
        Some(p) => weapon_tick_fits(p.weapon, dt) && footprint_fits(bullet) && world.next_id < u64::MAX,
        None => true,
    }
}

/// Runs the player's weapon for one tick. When fire is held, the cooldown has
/// run out and the aim has a direction, a projectile is spawned at the player's
/// position, moving along the aim at `BULLET_SPEED`, and its identifier returned.
/// Without a player nothing happens.
pub fn player_shoot_system(world: &mut World, dt: u64, fire_held: bool, bullet: Footprint) -> (r:
    Option<EntityId>)
    requires
        old(world).wf(),
        shoot_fits(*old(world), dt, bullet),
    ensures
        final(world).wf(),
        final(world).spawn_timer == old(world).spawn_timer,
        match old(world).player {
            None => {
                &&& r is None
                &&& final(world).player is None
                &&& final(world).entities@ == old(world).entities@
                &&& final(world).next_id == old(world).next_id
            },
            Some(p) => {
                &&& final(world).player == Some(player_after_shot(p, dt, fire_held))
                &&& if shot_fired(p, dt, fire_held) {
                    &&& r == Some(old(world).next_id)
                    &&& final(world).next_id == old(world).next_id + 1
                    &&& final(world).entities@ == old(world).entities@.push(
                        projectile(old(world).next_id, p, bullet),
                    )
                } else {
                    &&& r is None
                    &&& final(world).entities@ == old(world).entities@
                    &&& final(world).next_id == old(world).next_id
                }
            },
        },
{
    let (position, layer, aim, fired) = match &mut world.player {
        None => {
            return None;
        },
        Some(p) => {
            let aim = scaled_direction(p.target.x as i128, p.target.y as i128, BULLET_SPEED);
            let fired = weapon_tick(&mut p.weapon, dt, fire_held && aim.is_some());
            (p.transform.position, p.transform.layer, aim, fired)
        },
    };
    if !fired {
        return None;
    }
    let velocity = aim;
    let proxy = Circle { center: position, radius: bullet.radius() };
    let id = world.spawn(EntityKind::Projectile, Transform::at(position, layer), velocity, Some(proxy));
    Some(id)
}

} // verus!
