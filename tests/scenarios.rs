use asteroids::collision::{circle_collision_system, circle_update_system, CollisionEvent};
use asteroids::geometry::{Vec2, DIR_SCALE};
use asteroids::lifecycle::{asteroid_destroy_system, asteroid_hit_system};
use asteroids::targeting::player_target_system;
use asteroids::weapon::{player_shoot_system, BULLET_SPEED};
use asteroids::world::{
    new_player, Circle, EntityKind, Footprint, Transform, Viewport, World,
};

const PX: i64 = 1_000_000;

fn viewport() -> Viewport {
    Viewport { width: 800 * PX, height: 600 * PX }
}

fn world_with_two_circles(second_x: i64) -> World {
    let mut w = World::new();
    let c0 = Circle { center: Vec2::new(0, 0), radius: 5 };
    let c1 = Circle { center: Vec2::new(second_x, 0), radius: 5 };
    w.spawn(EntityKind::Obstacle, Transform::at(Vec2::new(0, 0), 0), None, Some(c0));
    w.spawn(EntityKind::Obstacle, Transform::at(Vec2::new(second_x, 0), 0), None, Some(c1));
    w
}

#[test]
fn shot_at_pointer_spawns_projectile_and_resets_cooldown() {
    let mut w = World::new();
    w.player = Some(new_player("Railgun".to_string(), 1000));
    let vp = viewport();
    // world position (10, 0) seen from a top-left, y-down pointer
    let pointer = Vec2::new(10 + vp.width / 2, vp.height / 2);
    player_target_system(&mut w, Some(pointer), vp);
    assert_eq!(w.player.as_ref().unwrap().target, Vec2::new(DIR_SCALE, 0));
    let bullet = Footprint { width: 8, height: 8 };
    let fired = player_shoot_system(&mut w, 1000, true, bullet);
    assert_eq!(fired, Some(0));
    assert_eq!(w.entities.len(), 1);
    let p = w.entities[0];
    assert_eq!(p.kind, EntityKind::Projectile);
    assert_eq!(p.transform.position, Vec2::new(0, 0));
    assert_eq!(p.velocity, Some(Vec2::new(BULLET_SPEED, 0)));
    assert_eq!(p.proxy, Some(Circle { center: Vec2::new(0, 0), radius: 4_000_000 }));
    assert_eq!(w.player.as_ref().unwrap().weapon.cooldown, 1000);
}

#[test]
fn overlapping_circles_collide_and_are_removed() {
    let mut w = world_with_two_circles(9);
    circle_update_system(&mut w);
    let events = circle_collision_system(&w);
    assert_eq!(events, vec![CollisionEvent { first: 0, second: 1 }]);
    asteroid_hit_system(&mut w, &events);
    assert!(w.entities.iter().all(|e| e.destroyed));
    asteroid_destroy_system(&mut w);
    assert!(w.entities.is_empty());
}

#[test]
fn tangent_circles_do_not_collide() {
    let w = world_with_two_circles(10);
    let events = circle_collision_system(&w);
    assert!(events.is_empty());
}
