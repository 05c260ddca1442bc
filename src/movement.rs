//! Velocity integration, player thrust and strafe, and screen wrap.
use vstd::prelude::*;
use crate::geometry::{scale_component, scaled_direction, scaled_direction_spec, Vec2, DIR_SCALE};
use crate::world::{aim_bounded, axis_high, axis_low, Entity, Player, Transform, Viewport, World};

verus! {

/// Thrust: 100 pixels per second squared, as velocity units gained per millisecond.
pub const PLAYER_ACCELERATION: i64 = 100;

/// Sideways speed added by one strafe key press: 100 pixels per second.
pub const PLAYER_STRAFE_SPEED: i64 = 100_000;

/// `pos + v * dt` on one axis.
pub open spec fn advance(pos: i64, v: i64, dt: u64) -> int {
    pos + v * dt
}

/// `pos + v * dt` fits on both axes.
pub open spec fn advance_fits(pos: Vec2, v: Vec2, dt: u64) -> bool {
    &&& i64::MIN <= advance(pos.x, v.x, dt) <= i64::MAX
    &&& i64::MIN <= advance(pos.y, v.y, dt) <= i64::MAX
}

/// `pos` moved by `v` for `dt` milliseconds.
pub open spec fn advanced(pos: Vec2, v: Vec2, dt: u64) -> Vec2 {
    Vec2 { x: advance(pos.x, v.x, dt) as i64, y: advance(pos.y, v.y, dt) as i64 }
}

/// A transform moved by `v` for `dt` milliseconds.
pub open spec fn moved(t: Transform, v: Vec2, dt: u64) -> Transform {
    Transform { position: advanced(t.position, v, dt), ..t }
}

/// An entity after integration: moved if it has a velocity.
pub open spec fn integrated(e: Entity, dt: u64) -> Entity {
    match e.velocity {
        Some(v) => Entity { transform: moved(e.transform, v, dt), ..e },
        None => e,
    }
}

/// Integration depends on position, velocity and time alone: two entities of
/// any kinds with equal positions and velocities end at equal positions, each
/// exactly `velocity * dt` from where it was.
pub proof fn lemma_integration_ignores_kind(a: Entity, b: Entity, dt: u64)
    requires
        a.transform.position == b.transform.position,
        a.velocity is Some,
        a.velocity == b.velocity,
        advance_fits(a.transform.position, a.velocity->0, dt),
    ensures
        integrated(a, dt).transform.position == integrated(b, dt).transform.position,
        integrated(a, dt).transform.position.x == a.transform.position.x + (a.velocity->0).x * dt,
        integrated(a, dt).transform.position.y == a.transform.position.y + (a.velocity->0).y * dt,
{
}

/// The player moved by its velocity for `dt` milliseconds.
pub open spec fn player_integrated(p: Player, dt: u64) -> Player {
    Player { transform: moved(p.transform, p.velocity, dt), ..p }
}

/// Every position can be advanced by `dt` without overflow.
pub open spec fn integration_fits(player: Option<Player>, es: Seq<Entity>, dt: u64) -> bool {
    &&& match player {
        Some(p) => advance_fits(p.transform.position, p.velocity, dt),
        None => true,
    }
    &&& forall|i: int|
        0 <= i < es.len() ==> match (#[trigger] es[i]).velocity {
            Some(v) => advance_fits(es[i].transform.position, v, dt),
            None => true,
        }
}

fn advance_exec(pos: Vec2, v: Vec2, dt: u64) -> (r: Vec2)
    requires
        advance_fits(pos, v, dt),
    ensures
        r == advanced(pos, v, dt),
{
    assert(-0x8000_0000_0000_0000_0000_0000_0000_0000int < v.x * dt
        < 0x8000_0000_0000_0000_0000_0000_0000_0000int
        && -0x8000_0000_0000_0000_0000_0000_0000_0000int < v.y * dt
        < 0x8000_0000_0000_0000_0000_0000_0000_0000int) by (nonlinear_arith)
        requires
            i64::MIN <= v.x <= i64::MAX,
            i64::MIN <= v.y <= i64::MAX,
            0 <= dt <= u64::MAX,
    ;
    let x = pos.x as i128 + v.x as i128 * dt as i128;
    let y = pos.y as i128 + v.y as i128 * dt as i128;
    Vec2 { x: x as i64, y: y as i64 }
}

/// Whether the world can be integrated over `dt` without overflow.
pub fn can_integrate(world: &World, dt: u64) -> (r: bool)
    ensures
        r == integration_fits(world.player, world.entities@, dt),
{
    let ok_player = match &world.player {
        Some(p) => fits_exec(p.transform.position, p.velocity, dt),
        None => true,
    };
    if !ok_player {
        return false;
    }
    let mut i: usize = 0;
    while i < world.entities.len()
        invariant
            i <= world.entities@.len(),
            forall|k: int|
                0 <= k < i ==> match (#[trigger] world.entities@[k]).velocity {
                    Some(v) => advance_fits(world.entities@[k].transform.position, v, dt),
                    None => true,
                },
        decreases world.entities@.len() - i,
    {
        let e = world.entities[i];
        match e.velocity {
            Some(v) => {
                if !fits_exec(e.transform.position, v, dt) {
                    return false;
                }
            },
            None => {},
        }
        i = i + 1;
    }
    true
}

fn fits_exec(pos: Vec2, v: Vec2, dt: u64) -> (r: bool)
    ensures
        r == advance_fits(pos, v, dt),
{
    assert(-0x8000_0000_0000_0000_0000_0000_0000_0000int < v.x * dt
        < 0x8000_0000_0000_0000_0000_0000_0000_0000int
        && -0x8000_0000_0000_0000_0000_0000_0000_0000int < v.y * dt
        < 0x8000_0000_0000_0000_0000_0000_0000_0000int) by (nonlinear_arith)
        requires
            i64::MIN <= v.x <= i64::MAX,
            i64::MIN <= v.y <= i64::MAX,
            0 <= dt <= u64::MAX,
    ;
    let mx = v.x as i128 * dt as i128;
    let my = v.y as i128 * dt as i128;
    let big: i128 = 0x1_0000_0000_0000_0000;
    if mx > big || mx < -big || my > big || my < -big {
        return false;
    }
    let x = pos.x as i128 + mx;
    let y = pos.y as i128 + my;
    i64::MIN as i128 <= x && x <= i64::MAX as i128 && i64::MIN as i128 <= y && y <= i64::MAX as i128
}

/// Adds `velocity * dt` to the position of every entity that has a velocity,
/// the player included, whatever its kind.
pub fn apply_velocity_system(world: &mut World, dt: u64)
    requires
        old(world).wf(),
        integration_fits(old(world).player, old(world).entities@, dt),
    ensures
        final(world).wf(),
        final(world).player == match old(world).player {
            Some(p) => Some(player_integrated(p, dt)),
            None => None,
        },
        final(world).entities@ == old(world).entities@.map_values(|e: Entity| integrated(e, dt)),
        final(world).spawn_timer == old(world).spawn_timer,
        final(world).next_id == old(world).next_id,
{
    match &mut world.player {
        Some(p) => {
            p.transform.position = advance_exec(p.transform.position, p.velocity, dt);
        },
        None => {},
    }
    let n = world.entities.len();
    let mut i: usize = 0;
    while i < n
        invariant
            n == world.entities@.len(),
            i <= n,
            world.player == match old(world).player {
                Some(p) => Some(player_integrated(p, dt)),
                None => None,
            },
            world.spawn_timer == old(world).spawn_timer,
            world.next_id == old(world).next_id,
            world.entities@.len() == old(world).entities@.len(),
            integration_fits(old(world).player, old(world).entities@, dt),
            forall|k: int| 0 <= k < i ==> #[trigger] world.entities@[k] == integrated(old(world).entities@[k], dt),
            forall|k: int| i <= k < n ==> #[trigger] world.entities@[k] == old(world).entities@[k],
        decreases n - i,
    {
        let mut e = world.entities[i];
        assert(e == old(world).entities@[i as int]);
        match e.velocity {
            Some(v) => {
                e.transform.position = advance_exec(e.transform.position, v, dt);
            },
            None => {},
        }
        world.entities.set(i, e);
        i = i + 1;
    }
    assert(world.entities@ =~= old(world).entities@.map_values(|e: Entity| integrated(e, dt)));
}

/// Which movement keys are down this tick.
#[derive(Clone, Copy, Debug, PartialEq, Eq, Structural)]
pub struct MoveKeys {
    pub forward_held: bool,
    pub backward_held: bool,
    pub strafe_left_pressed: bool,
    pub strafe_right_pressed: bool,
}

/// The thrust direction rotated a quarter turn counter-clockwise, at strafe
/// speed; none when there is no thrust to rotate (a zero aim or no time).
pub open spec fn strafe_vector(aim: Vec2, dt: u64) -> (int, int) {
    if PLAYER_ACCELERATION * dt == 0 {
        (0, 0)
    } else {
        match scaled_direction_spec(-aim.y, aim.x as int, PLAYER_STRAFE_SPEED as int) {
            Some(s) => s,
            None => (0, 0),
        }
    }
}

/// Velocity change of one tick: each held thrust key adds the aim times the
/// acceleration over `dt`, a strafe-left press adds the strafe vector and a
/// strafe-right press takes it off.
pub open spec fn move_delta(aim: Vec2, dt: u64, keys: MoveKeys) -> (int, int) {
    let accel = PLAYER_ACCELERATION * dt;
    let tx = scale_component(aim.x as int, accel, DIR_SCALE as int);
    let ty = scale_component(aim.y as int, accel, DIR_SCALE as int);
    let s = strafe_vector(aim, dt);
    (
        (if keys.forward_held { tx } else { 0 }) + (if keys.backward_held { tx } else { 0 }) + (
        if keys.strafe_left_pressed { s.0 } else { 0 }) - (if keys.strafe_right_pressed { s.0 } else { 0 }),
        (if keys.forward_held { ty } else { 0 }) + (if keys.backward_held { ty } else { 0 }) + (
        if keys.strafe_left_pressed { s.1 } else { 0 }) - (if keys.strafe_right_pressed { s.1 } else { 0 }),
    )
}

/// The player's velocity after this tick's input, on both axes.
pub open spec fn moved_velocity(p: Player, dt: u64, keys: MoveKeys) -> (int, int) {
    let d = move_delta(p.target, dt, keys);
    (p.velocity.x + d.0, p.velocity.y + d.1)
}

/// The new velocity fits.
pub open spec fn move_fits(p: Player, dt: u64, keys: MoveKeys) -> bool {
    let v = moved_velocity(p, dt, keys);
    i64::MIN <= v.0 <= i64::MAX && i64::MIN <= v.1 <= i64::MAX
}

/// The player after this tick's input: heading turned to the aim, velocity changed.
pub open spec fn player_moved(p: Player, dt: u64, keys: MoveKeys) -> Player {
    let v = moved_velocity(p, dt, keys);
    Player {
        transform: Transform { heading: p.target, ..p.transform },
        velocity: Vec2 { x: v.0 as i64, y: v.1 as i64 },
        ..p
    }
}

fn thrust_component(d: i64, dt: u64) -> (r: i128)
    requires
        -DIR_SCALE <= d <= DIR_SCALE,
    ensures
        r == scale_component(d as int, PLAYER_ACCELERATION * dt, DIR_SCALE as int),
        -PLAYER_ACCELERATION * dt <= r <= PLAYER_ACCELERATION * dt,
{
    let a: u128 = if d >= 0 { d as u128 } else { (-d) as u128 };
    let accel: u128 = PLAYER_ACCELERATION as u128 * dt as u128;
    assert(a * accel <= 1_000_000 * (100 * 0x1_0000_0000_0000_0000int)) by (nonlinear_arith)
        requires
            a <= 1_000_000,
            accel <= 100 * 0x1_0000_0000_0000_0000int,
    ;
    assert(a * accel / 1_000_000 <= accel) by (nonlinear_arith)
        requires
            a <= 1_000_000,
            accel >= 0,
    ;
    let q: u128 = a * accel / (DIR_SCALE as u128);
    if d >= 0 {
        q as i128
    } else {
        -(q as i128)
    }
}

fn moved_velocity_exec(p: &Player, dt: u64, keys: MoveKeys) -> (r: (i128, i128))
    requires
        p.wf(),
    ensures
        r.0 == moved_velocity(*p, dt, keys).0,
        r.1 == moved_velocity(*p, dt, keys).1,
{
    let aim = p.target;
    let tx = thrust_component(aim.x, dt);
    let ty = thrust_component(aim.y, dt);
    let s = if PLAYER_ACCELERATION as u128 * dt as u128 == 0 {
        Vec2 { x: 0, y: 0 }
    } else {
        match scaled_direction(-(aim.y as i128), aim.x as i128, PLAYER_STRAFE_SPEED) {
            Some(v) => v,
            None => Vec2 { x: 0, y: 0 },
        }
    };
    let mut vx: i128 = p.velocity.x as i128;
    let mut vy: i128 = p.velocity.y as i128;
    if keys.forward_held {
        vx = vx + tx;
        vy = vy + ty;
    }
    if keys.backward_held {
        vx = vx + tx;
        vy = vy + ty;
    }
    if keys.strafe_left_pressed {
        vx = vx + s.x as i128;
        vy = vy + s.y as i128;
    }
    if keys.strafe_right_pressed {
        vx = vx - s.x as i128;
        vy = vy - s.y as i128;
    }
    (vx, vy)
}

/// Whether this tick's input leaves the player's velocity representable.
pub fn can_move(p: &Player, dt: u64, keys: MoveKeys) -> (r: bool)
    requires
        p.wf(),
    ensures
        r == move_fits(*p, dt, keys),
{
    let (vx, vy) = moved_velocity_exec(p, dt, keys);
    i64::MIN as i128 <= vx && vx <= i64::MAX as i128 && i64::MIN as i128 <= vy && vy
        <= i64::MAX as i128
}

/// Turns the player to its aim and applies thrust and strafe input to its velocity.
pub fn player_move_system(player: &mut Player, dt: u64, keys: MoveKeys)
    requires
        old(player).wf(),
        move_fits(*old(player), dt, keys),
    ensures
        *final(player) == player_moved(*old(player), dt, keys),
        final(player).wf(),
{
    let (vx, vy) = moved_velocity_exec(player, dt, keys);
    player.transform.heading = player.target;
    player.velocity = Vec2 { x: vx as i64, y: vy as i64 };
}

/// One axis of the screen wrap over `[axis_low, axis_high)`: at or past the high
/// edge goes to the low edge, below the low edge goes to the high edge,
/// anything else stays.
pub open spec fn wrap_axis(x: int, extent: int) -> int {
    let lo = axis_low(extent);
    let hi = axis_high(extent);
    if x >= hi {
        lo
    } else if x < lo {
        hi
    } else {
        x
    }
}

/// On a play-field axis of even length `w`, a position exactly on `+w/2`
/// wraps to `-w/2`, a position on `-w/2` stays where it is, a position past
/// `-w/2` goes to `+w/2`, and positions inside the field never move.
pub proof fn lemma_wrap_edges(extent: int, x: int)
    requires
        extent > 0,
        extent % 2 == 0,
    ensures
        wrap_axis(extent / 2, extent) == -(extent / 2),
        wrap_axis(-(extent / 2), extent) == -(extent / 2),
        x < -(extent / 2) ==> wrap_axis(x, extent) == extent / 2,
        -(extent / 2) <= x < extent / 2 ==> wrap_axis(x, extent) == x,
{
}

fn wrap_axis_exec(x: i64, extent: i64) -> (r: i64)
    requires
        0 <= extent <= i64::MAX,
    ensures
        r == wrap_axis(x as int, extent as int),
{
    let lo = -(extent / 2);
    let hi = extent - extent / 2;
    if x >= hi {
        lo
    } else if x < lo {
        hi
    } else {
        x
    }
}

/// The player after the screen wrap.
pub open spec fn player_wrapped(p: Player, viewport: Viewport) -> Player {
    Player {
        transform: Transform {
            position: Vec2 {
                x: wrap_axis(p.transform.position.x as int, viewport.width as int) as i64,
                y: wrap_axis(p.transform.position.y as int, viewport.height as int) as i64,
            },
            ..p.transform
        },
        ..p
    }
}

/// Teleports the player to the opposite edge when it has left the play-field.
/// Without a player nothing happens.
pub fn player_wrap_system(world: &mut World, viewport: Viewport)
    requires
        old(world).wf(),
        viewport.wf(),
    ensures
        final(world).wf(),
        final(world).player == match old(world).player {
            Some(p) => Some(player_wrapped(p, viewport)),
            None => None,
        },
        final(world).entities == old(world).entities,
        final(world).spawn_timer == old(world).spawn_timer,
        final(world).next_id == old(world).next_id,
{
    match &mut world.player {
        Some(p) => {
            let x = wrap_axis_exec(p.transform.position.x, viewport.width);
            let y = wrap_axis_exec(p.transform.position.y, viewport.height);
            p.transform.position = Vec2 { x, y };
        },
        None => {},
    }
}

} // verus!
