//! The entity arena: the player singleton, spawned entities and the spawn timer.
use vstd::prelude::*;
use crate::geometry::{Vec2, COORD_LIMIT, DIR_SCALE};

verus! {

/// Scale factor of 1.0 in fixed point.
pub const SCALE_ONE: i64 = 1000;

/// An entity identifier, unique among the entities alive in a world.
pub type EntityId = u64;

/// Where an entity is: position, heading (a fixed-point unit vector, or zero
/// before the first aim), render layer and scale (`SCALE_ONE` is 1.0).
#[derive(Clone, Copy, Debug, PartialEq, Eq, Structural)]
pub struct Transform {
    pub position: Vec2,
    pub layer: i64,
    pub heading: Vec2,
    pub scale: i64,
}

/// A transform at `position` on `layer`, with no heading and unit scale.
pub open spec fn placed(position: Vec2, layer: i64) -> Transform {
    Transform { position, layer, heading: Vec2 { x: 0, y: 0 }, scale: SCALE_ONE }
}

impl Transform {
    pub fn at(position: Vec2, layer: i64) -> (r: Transform)
        ensures
            r == placed(position, layer),
    {
        Transform { position, layer, heading: Vec2::zero(), scale: SCALE_ONE }
    }
}

/// A circular collision proxy: a cache of the owner's position and a radius.
#[derive(Clone, Copy, Debug, PartialEq, Eq, Structural)]
pub struct Circle {
    pub center: Vec2,
    pub radius: u32,
}

/// Pixel size of a sprite, from which a proxy radius is derived.
#[derive(Clone, Copy, Debug, PartialEq, Eq, Structural)]
pub struct Footprint {
    pub width: u32,
    pub height: u32,
}

/// A proxy radius of a quarter of the footprint's width plus height, in micro-pixels.
pub open spec fn footprint_radius_spec(f: Footprint) -> int {
    (f.width + f.height) * 250_000
}

/// Whether a footprint's radius fits the proxy's radius type.
pub open spec fn footprint_fits(f: Footprint) -> bool {
    footprint_radius_spec(f) <= u32::MAX
}

impl Footprint {
    pub fn fits(&self) -> (r: bool)
        ensures
            r == footprint_fits(*self),
    {
        (self.width as u64 + self.height as u64) * 250_000 <= u32::MAX as u64
    }

    pub fn radius(&self) -> (r: u32)
        requires
            footprint_fits(*self),
        ensures
            r == footprint_radius_spec(*self),
    {
        ((self.width as u64 + self.height as u64) * 250_000) as u32
    }
}

/// What kind of thing an entity is.
#[derive(Clone, Copy, Debug, PartialEq, Eq, Structural)]
pub enum EntityKind {
    Obstacle,
    Projectile,
    Background,
}

/// A spawned entity with its optional records.
#[derive(Clone, Copy, Debug, PartialEq, Eq, Structural)]
pub struct Entity {
    pub id: EntityId,
    pub kind: EntityKind,
    pub transform: Transform,
    pub velocity: Option<Vec2>,
    pub proxy: Option<Circle>,
    pub destroyed: bool,
}

/// A weapon: its rate of fire in thousandths of a shot per second, and the
/// milliseconds until it may fire again.
#[derive(Debug)]
pub struct Weapon {
    pub name: String,
    pub rate_of_fire: i64,
    pub cooldown: i64,
}

/// The player-controlled ship.
#[derive(Debug)]
pub struct Player {
    pub transform: Transform,
    pub velocity: Vec2,
    pub target: Vec2,
    pub weapon: Weapon,
}

/// Each aim component lies within one unit length.
pub open spec fn aim_bounded(v: Vec2) -> bool {
    -DIR_SCALE <= v.x <= DIR_SCALE && -DIR_SCALE <= v.y <= DIR_SCALE
}

impl Player {
    pub open spec fn wf(&self) -> bool {
        aim_bounded(self.target)
    }
}

/// Countdown to the next obstacle, in milliseconds.
#[derive(Clone, Copy, Debug, PartialEq, Eq, Structural)]
pub struct SpawnTimer {
    pub remaining: i64,
    pub cooldown: i64,
}

/// Size of the play-field in micro-pixels.
#[derive(Clone, Copy, Debug, PartialEq, Eq, Structural)]
pub struct Viewport {
    pub width: i64,
    pub height: i64,
}

impl Viewport {
    pub open spec fn wf(&self) -> bool {
        0 <= self.width <= COORD_LIMIT && 0 <= self.height <= COORD_LIMIT
    }

    pub fn is_valid(&self) -> (r: bool)
        ensures
            r == self.wf(),
    {
        0 <= self.width && self.width <= COORD_LIMIT && 0 <= self.height && self.height
            <= COORD_LIMIT
    }
}

/// Lowest coordinate of a play-field axis of length `extent`.
pub open spec fn axis_low(extent: int) -> int {
    -(extent / 2)
}

/// One past the highest coordinate of a play-field axis of length `extent`.
pub open spec fn axis_high(extent: int) -> int {
    extent - extent / 2
}

/// All simulation state.
pub struct World {
    pub player: Option<Player>,
    pub entities: Vec<Entity>,
    pub spawn_timer: Option<SpawnTimer>,
    pub next_id: EntityId,
}

/// Identifiers increase along the arena and all lie below the next one handed out.
pub open spec fn ids_ordered(es: Seq<Entity>, next_id: int) -> bool {
    &&& forall|i: int, j: int| 0 <= i < j < es.len() ==> es[i].id < es[j].id
    &&& forall|i: int| 0 <= i < es.len() ==> es[i].id < next_id
}

/// The entity a spawn appends.
pub open spec fn new_entity(
    id: EntityId,
    kind: EntityKind,
    transform: Transform,
    velocity: Option<Vec2>,
    proxy: Option<Circle>,
) -> Entity {
    Entity { id, kind, transform, velocity, proxy, destroyed: false }
}

impl World {
    pub open spec fn wf(&self) -> bool {
        &&& ids_ordered(self.entities@, self.next_id as int)
        &&& match self.player {
            Some(p) => p.wf(),
            None => true,
        }
    }

    /// An empty world with no player and no spawn timer.
    pub fn new() -> (r: World)
        ensures
            r.wf(),
            r.player is None,
            r.entities@.len() == 0,
            r.spawn_timer is None,
            r.next_id == 0,
    {
        World { player: None, entities: Vec::new(), spawn_timer: None, next_id: 0 }
    }

    /// Whether another entity can still get a fresh identifier.
    pub fn can_spawn(&self) -> (r: bool)
        ensures
            r == (self.next_id < u64::MAX),
    {
        self.next_id < u64::MAX
    }

    /// Appends an entity under a fresh identifier and returns that identifier.
    pub fn spawn(
        &mut self,
        kind: EntityKind,
        transform: Transform,
        velocity: Option<Vec2>,
        proxy: Option<Circle>,
    ) -> (id: EntityId)
        requires
            old(self).wf(),
            old(self).next_id < u64::MAX,
        ensures
            final(self).wf(),
            id == old(self).next_id,
            final(self).next_id == old(self).next_id + 1,
            final(self).entities@ == old(self).entities@.push(
                new_entity(id, kind, transform, velocity, proxy),
            ),
            final(self).player == old(self).player,
            final(self).spawn_timer == old(self).spawn_timer,
    {
        let id = self.next_id;
        self.entities.push(
            Entity { id, kind, transform, velocity, proxy, destroyed: false },
        );
        self.next_id = id + 1;
        id
    }
}

/// The player as placed at start: at the origin, at rest, with no aim yet.
pub fn new_player(name: String, rate_of_fire: i64) -> (r: Player)
    ensures
        r.transform == placed(Vec2 { x: 0, y: 0 }, 0),
        r.velocity.is_zero(),
        r.target.is_zero(),
        r.weapon.name@ == name@,
        r.weapon.rate_of_fire == rate_of_fire,
        r.weapon.cooldown == 0,
{
    Player {
        transform: Transform::at(Vec2::zero(), 0),
        velocity: Vec2::zero(),
        target: Vec2::zero(),
        weapon: Weapon { name, rate_of_fire, cooldown: 0 },
    }
}

} // verus!
