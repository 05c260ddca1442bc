//! Aiming the player at the pointer.
use vstd::prelude::*;
use crate::geometry::{scaled_direction, scaled_direction_spec, Vec2, COORD_LIMIT, DIR_SCALE};
use crate::world::{Player, Viewport, World};

verus! {

/// The pointer lies in the viewport (top-left origin, y down).
pub open spec fn pointer_in_view(p: Vec2, viewport: Viewport) -> bool {
    0 <= p.x <= viewport.width && 0 <= p.y <= viewport.height
}

/// The pointer in world coordinates: center origin, y up.
pub open spec fn pointer_world(p: Vec2, viewport: Viewport) -> Vec2 {
    Vec2 { x: (p.x - viewport.width / 2) as i64, y: (-(p.y - viewport.height / 2)) as i64 }
}

/// The position is close enough to the origin to aim from.
pub open spec fn in_aim_range(pos: Vec2) -> bool {
    -COORD_LIMIT <= pos.x <= COORD_LIMIT && -COORD_LIMIT <= pos.y <= COORD_LIMIT
}

/// The unit direction from `pos` toward the pointer, or `None` when there is
/// no pointer in view, the position is out of aiming range, or the pointer is
/// exactly on the position.
pub open spec fn aim_direction(pos: Vec2, pointer: Option<Vec2>, viewport: Viewport) -> Option<Vec2> {
    match pointer {
        None => None,
        Some(p) => if !pointer_in_view(p, viewport) || !in_aim_range(pos) {
            None
        } else {
            let w = pointer_world(p, viewport);
            match scaled_direction_spec(w.x - pos.x, w.y - pos.y, DIR_SCALE as int) {
                Some(v) => Some(Vec2 { x: v.0 as i64, y: v.1 as i64 }),
                None => None,
            }
        },
    }
}

/// The player after aiming: facing the pointer when there is a direction to
/// take, unchanged otherwise.
pub open spec fn player_targeted(p: Player, pointer: Option<Vec2>, viewport: Viewport) -> Player {
    match aim_direction(p.transform.position, pointer, viewport) {
        Some(d) => Player { target: d, ..p },
        None => p,
    }
}

/// Converts a viewport pointer position to world coordinates.
pub fn pointer_to_world(p: Vec2, viewport: Viewport) -> (r: Vec2)
    requires
        viewport.wf(),
        pointer_in_view(p, viewport),
    ensures
        r == pointer_world(p, viewport),
        r.x == p.x - viewport.width / 2,
        r.y == viewport.height / 2 - p.y,
{
    Vec2 { x: p.x - viewport.width / 2, y: viewport.height / 2 - p.y }
}

/// The direction the player at `player_position` should face for the pointer.
pub fn get_player_direction(player_position: Vec2, pointer: Option<Vec2>, viewport: Viewport) -> (r:
    Option<Vec2>)
    requires
        viewport.wf(),
    ensures
        r == aim_direction(player_position, pointer, viewport),
        r matches Some(d) ==> -DIR_SCALE <= d.x <= DIR_SCALE && -DIR_SCALE <= d.y <= DIR_SCALE,
{
    let p = match pointer {
        None => {
            return None;
        },
        Some(p) => p,
    };
    if !(0 <= p.x && p.x <= viewport.width && 0 <= p.y && p.y <= viewport.height) {
        return None;
    }
    if !(-COORD_LIMIT <= player_position.x && player_position.x <= COORD_LIMIT && -COORD_LIMIT
        <= player_position.y && player_position.y <= COORD_LIMIT) {
        return None;
    }
    let w = pointer_to_world(p, viewport);
    let dx: i128 = w.x as i128 - player_position.x as i128;
    let dy: i128 = w.y as i128 - player_position.y as i128;
    scaled_direction(dx, dy, DIR_SCALE)
}

/// Points the player's aim at the pointer; keeps the previous aim when there
/// is no direction to take. Without a player nothing happens.
pub fn player_target_system(world: &mut World, pointer: Option<Vec2>, viewport: Viewport)
    requires
        old(world).wf(),
        viewport.wf(),
    ensures
        final(world).wf(),
        final(world).player == match old(world).player {
            Some(p) => Some(player_targeted(p, pointer, viewport)),
            None => None,
        },
        final(world).entities == old(world).entities,
        final(world).spawn_timer == old(world).spawn_timer,
        final(world).next_id == old(world).next_id,
{
    match &mut world.player {
        Some(p) => {
            match get_player_direction(p.transform.position, pointer, viewport) {
                Some(d) => {
                    p.target = d;
                },
                None => {},
            }
        },
        None => {},
    }
}

} // verus!
