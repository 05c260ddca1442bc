use asteroids::collision::{circle_collision_system, circle_update_system, circles_overlap, CollisionEvent};
use asteroids::geometry::{isqrt, scaled_direction, Vec2, DIR_SCALE};
use asteroids::lifecycle::{asteroid_destroy_system, asteroid_hit_system};
use asteroids::movement::{
    apply_velocity_system, can_integrate, can_move, player_move_system, player_wrap_system, MoveKeys,
    PLAYER_STRAFE_SPEED,
};
use asteroids::sim::{setup_system, tick, Footprints, TickInput, BACKGROUND_LAYER};
use asteroids::spawner::{asteroid_spawner_system, spawn_obstacle_at, spawn_timer_update_system, SPAWN_COOLDOWN};
use asteroids::targeting::{get_player_direction, pointer_to_world};
use asteroids::weapon::{player_shoot_system, weapon_tick};
use asteroids::world::{
    new_player, Circle, EntityKind, Footprint, SpawnTimer, Transform, Viewport, Weapon, World,
};

const PX: i64 = 1_000_000;

fn viewport() -> Viewport {
    Viewport { width: 800 * PX, height: 600 * PX }
}

fn no_keys() -> MoveKeys {
    MoveKeys { forward_held: false, backward_held: false, strafe_left_pressed: false, strafe_right_pressed: false }
}

#[test]
fn integer_square_roots() {
    assert_eq!(isqrt(0), 0);
    assert_eq!(isqrt(1), 1);
    assert_eq!(isqrt(24), 4);
    assert_eq!(isqrt(25), 5);
    assert_eq!(isqrt(u128::MAX), u64::MAX);
}

#[test]
fn directions_are_rescaled() {
    assert_eq!(scaled_direction(3, 4, DIR_SCALE), Some(Vec2::new(600_000, 800_000)));
    assert_eq!(scaled_direction(-3, -4, 10), Some(Vec2::new(-6, -8)));
    assert_eq!(scaled_direction(0, 0, DIR_SCALE), None);
    assert_eq!(scaled_direction(0, -7, DIR_SCALE), Some(Vec2::new(0, -DIR_SCALE)));
}

#[test]
fn pointer_converts_to_world_coordinates() {
    let vp = viewport();
    assert_eq!(pointer_to_world(Vec2::new(0, 0), vp), Vec2::new(-400 * PX, 300 * PX));
    assert_eq!(pointer_to_world(Vec2::new(400 * PX, 300 * PX), vp), Vec2::new(0, 0));
}

#[test]
fn direction_is_skipped_without_a_usable_pointer() {
    let vp = viewport();
    let center = Vec2::new(400 * PX, 300 * PX);
    assert_eq!(get_player_direction(Vec2::new(0, 0), None, vp), None);
    assert_eq!(get_player_direction(Vec2::new(0, 0), Some(center), vp), None);
    assert_eq!(get_player_direction(Vec2::new(0, 0), Some(Vec2::new(-1, 0)), vp), None);
    assert_eq!(
        get_player_direction(Vec2::new(0, 0), Some(Vec2::new(400 * PX, 0)), vp),
        Some(Vec2::new(0, DIR_SCALE))
    );
}

#[test]
fn velocity_is_integrated_for_every_kind() {
    let mut w = World::new();
    let mut p = new_player("Railgun".to_string(), 1000);
    p.velocity = Vec2::new(3, -2);
    w.player = Some(p);
    w.spawn(EntityKind::Obstacle, Transform::at(Vec2::new(10, 10), 0), Some(Vec2::new(-1, 5)), None);
    w.spawn(EntityKind::Background, Transform::at(Vec2::new(7, 7), -1), None, None);
    assert!(can_integrate(&w, 16));
    apply_velocity_system(&mut w, 16);
    assert_eq!(w.player.as_ref().unwrap().transform.position, Vec2::new(48, -32));
    assert_eq!(w.entities[0].transform.position, Vec2::new(-6, 90));
    assert_eq!(w.entities[1].transform.position, Vec2::new(7, 7));
}

#[test]
fn integration_overflow_is_detected() {
    let mut w = World::new();
    w.spawn(EntityKind::Projectile, Transform::at(Vec2::new(i64::MAX - 5, 0), 0), Some(Vec2::new(1, 0)), None);
    assert!(can_integrate(&w, 5));
    assert!(!can_integrate(&w, 6));
}

#[test]
fn cooldown_resets_to_period_without_carry() {
    let mut wpn = Weapon { name: "Railgun".to_string(), rate_of_fire: 4000, cooldown: 100 };
    assert!(weapon_tick(&mut wpn, 600, true));
    assert_eq!(wpn.cooldown, 250);
    assert!(!weapon_tick(&mut wpn, 100, true));
    assert_eq!(wpn.cooldown, 150);
    assert!(!weapon_tick(&mut wpn, 200, false));
    assert_eq!(wpn.cooldown, -50);
    assert!(weapon_tick(&mut wpn, 0, true));
    assert_eq!(wpn.cooldown, 250);
}

#[test]
fn non_positive_rate_never_fires() {
    let mut wpn = Weapon { name: "Dud".to_string(), rate_of_fire: 0, cooldown: 0 };
    assert!(!weapon_tick(&mut wpn, 1000, true));
    assert_eq!(wpn.cooldown, -1000);
    let mut neg = Weapon { name: "Dud".to_string(), rate_of_fire: -3, cooldown: 0 };
    assert!(!weapon_tick(&mut neg, 10, true));
}

#[test]
fn fractional_rate_of_fire() {
    let mut slow = Weapon { name: "Mortar".to_string(), rate_of_fire: 500, cooldown: 0 };
    assert!(weapon_tick(&mut slow, 16, true));
    assert_eq!(slow.cooldown, 2000);
    let mut odd = Weapon { name: "Pulse".to_string(), rate_of_fire: 3000, cooldown: 0 };
    assert!(weapon_tick(&mut odd, 16, true));
    assert_eq!(odd.cooldown, 333);
}

#[test]
fn no_shot_without_aim() {
    let mut w = World::new();
    w.player = Some(new_player("Railgun".to_string(), 1000));
    let fired = player_shoot_system(&mut w, 1000, true, Footprint { width: 8, height: 8 });
    assert_eq!(fired, None);
    assert!(w.entities.is_empty());
    assert_eq!(w.player.as_ref().unwrap().weapon.cooldown, -1000);
}

#[test]
fn shoot_without_player_does_nothing() {
    let mut w = World::new();
    assert_eq!(player_shoot_system(&mut w, 1000, true, Footprint { width: 8, height: 8 }), None);
    assert!(w.entities.is_empty());
}

fn obstacle_count(w: &World) -> usize {
    w.entities.iter().filter(|e| e.kind == EntityKind::Obstacle).count()
}

fn timer_world(remaining: i64) -> World {
    let mut w = World::new();
    w.spawn_timer = Some(SpawnTimer { remaining, cooldown: SPAWN_COOLDOWN });
    w
}

const OBSTACLE: Footprint = Footprint { width: 32, height: 32 };

#[test]
fn timer_update_only_takes_time_off() {
    let mut t = SpawnTimer { remaining: SPAWN_COOLDOWN, cooldown: SPAWN_COOLDOWN };
    spawn_timer_update_system(&mut t, 5000);
    assert_eq!(t, SpawnTimer { remaining: SPAWN_COOLDOWN - 5000, cooldown: SPAWN_COOLDOWN });
}

#[test]
fn long_tick_spawns_once() {
    let mut w = timer_world(SPAWN_COOLDOWN);
    assert_eq!(asteroid_spawner_system(&mut w, 5 * SPAWN_COOLDOWN as u64, viewport(), OBSTACLE), Some(0));
    assert_eq!(w.spawn_timer, Some(SpawnTimer { remaining: SPAWN_COOLDOWN, cooldown: SPAWN_COOLDOWN }));
    assert_eq!(asteroid_spawner_system(&mut w, 16, viewport(), OBSTACLE), None);
    assert_eq!(obstacle_count(&w), 1);
}

#[test]
fn update_then_spawner_spawns_once() {
    let mut w = timer_world(SPAWN_COOLDOWN);
    spawn_timer_update_system(w.spawn_timer.as_mut().unwrap(), 5000);
    assert_eq!(asteroid_spawner_system(&mut w, 0, viewport(), OBSTACLE), Some(0));
    assert_eq!(w.spawn_timer, Some(SpawnTimer { remaining: SPAWN_COOLDOWN, cooldown: SPAWN_COOLDOWN }));
    assert_eq!(asteroid_spawner_system(&mut w, 0, viewport(), OBSTACLE), None);
    assert_eq!(obstacle_count(&w), 1);
}

#[test]
fn spawn_when_period_accumulates() {
    let mut w = timer_world(SPAWN_COOLDOWN);
    for _ in 0..3 {
        assert_eq!(asteroid_spawner_system(&mut w, 500, viewport(), OBSTACLE), None);
    }
    assert_eq!(w.spawn_timer.unwrap().remaining, 500);
    assert_eq!(asteroid_spawner_system(&mut w, 500, viewport(), OBSTACLE), Some(0));
    assert_eq!(w.spawn_timer.unwrap().remaining, SPAWN_COOLDOWN);
    assert_eq!(obstacle_count(&w), 1);
}

#[test]
fn spawner_places_obstacle_inside_viewport() {
    let vp = Viewport { width: 3, height: 2 };
    for _ in 0..50 {
        let mut w = World::new();
        w.spawn_timer = Some(SpawnTimer { remaining: 0, cooldown: 2000 });
        let id = asteroid_spawner_system(&mut w, 16, vp, Footprint { width: 32, height: 32 });
        assert_eq!(id, Some(0));
        let e = w.entities[0];
        assert_eq!(e.kind, EntityKind::Obstacle);
        assert!(-1 <= e.transform.position.x && e.transform.position.x < 2);
        assert!(-1 <= e.transform.position.y && e.transform.position.y < 1);
        assert_eq!(e.proxy, Some(Circle { center: e.transform.position, radius: 16_000_000 }));
        assert_eq!(w.spawn_timer, Some(SpawnTimer { remaining: 2000, cooldown: 2000 }));
    }
}

#[test]
fn spawner_waits_for_timer() {
    let mut w = World::new();
    w.spawn_timer = Some(SpawnTimer { remaining: 100, cooldown: 2000 });
    assert_eq!(asteroid_spawner_system(&mut w, 16, viewport(), Footprint { width: 32, height: 32 }), None);
    assert!(w.entities.is_empty());
    assert_eq!(w.spawn_timer, Some(SpawnTimer { remaining: 84, cooldown: 2000 }));
}

#[test]
fn spawn_obstacle_at_given_position() {
    let mut w = World::new();
    let id = spawn_obstacle_at(&mut w, Vec2::new(5, -5), Footprint { width: 4, height: 0 });
    assert_eq!(id, 0);
    assert_eq!(w.next_id, 1);
    assert_eq!(w.entities[0].proxy, Some(Circle { center: Vec2::new(5, -5), radius: 1_000_000 }));
}

#[test]
fn footprint_radius_and_fit() {
    assert_eq!(Footprint { width: 32, height: 32 }.radius(), 16_000_000);
    assert!(Footprint { width: 17_179, height: 0 }.fits());
    assert!(!Footprint { width: 17_180, height: 0 }.fits());
}

#[test]
fn wrap_at_edges() {
    let vp = viewport();
    let half = 400 * PX;
    let mut w = World::new();
    w.player = Some(new_player("Railgun".to_string(), 1000));
    w.player.as_mut().unwrap().transform.position = Vec2::new(half, 0);
    player_wrap_system(&mut w, vp);
    assert_eq!(w.player.as_ref().unwrap().transform.position, Vec2::new(-half, 0));
    player_wrap_system(&mut w, vp);
    assert_eq!(w.player.as_ref().unwrap().transform.position, Vec2::new(-half, 0));
    w.player.as_mut().unwrap().transform.position = Vec2::new(-half - 1, 300 * PX + 5);
    player_wrap_system(&mut w, vp);
    assert_eq!(w.player.as_ref().unwrap().transform.position, Vec2::new(half, -300 * PX));
    w.player.as_mut().unwrap().transform.position = Vec2::new(12, -300 * PX - 1);
    player_wrap_system(&mut w, vp);
    assert_eq!(w.player.as_ref().unwrap().transform.position, Vec2::new(12, 300 * PX));
}

#[test]
fn thrust_and_strafe() {
    let mut p = new_player("Railgun".to_string(), 1000);
    p.target = Vec2::new(DIR_SCALE, 0);
    let fwd = MoveKeys { forward_held: true, ..no_keys() };
    assert!(can_move(&p, 10, fwd));
    player_move_system(&mut p, 10, fwd);
    assert_eq!(p.transform.heading, Vec2::new(DIR_SCALE, 0));
    assert_eq!(p.velocity, Vec2::new(1000, 0));
    let both = MoveKeys { forward_held: true, backward_held: true, ..no_keys() };
    player_move_system(&mut p, 10, both);
    assert_eq!(p.velocity, Vec2::new(3000, 0));
    let left = MoveKeys { strafe_left_pressed: true, ..no_keys() };
    player_move_system(&mut p, 10, left);
    assert_eq!(p.velocity, Vec2::new(3000, PLAYER_STRAFE_SPEED));
    let right = MoveKeys { strafe_right_pressed: true, ..no_keys() };
    player_move_system(&mut p, 10, right);
    assert_eq!(p.velocity, Vec2::new(3000, 0));
    player_move_system(&mut p, 10, no_keys());
    assert_eq!(p.velocity, Vec2::new(3000, 0));
}

#[test]
fn no_strafe_without_elapsed_time() {
    let mut p = new_player("Railgun".to_string(), 1000);
    p.target = Vec2::new(DIR_SCALE, 0);
    let keys = MoveKeys { strafe_left_pressed: true, forward_held: true, ..no_keys() };
    player_move_system(&mut p, 0, keys);
    assert_eq!(p.velocity, Vec2::new(0, 0));
    assert_eq!(p.transform.heading, Vec2::new(DIR_SCALE, 0));
}

#[test]
fn no_strafe_without_aim() {
    let mut p = new_player("Railgun".to_string(), 1000);
    player_move_system(&mut p, 16, MoveKeys { strafe_right_pressed: true, ..no_keys() });
    assert_eq!(p.velocity, Vec2::new(0, 0));
}

#[test]
fn thrust_overflow_is_detected() {
    let mut p = new_player("Railgun".to_string(), 1000);
    p.target = Vec2::new(DIR_SCALE, 0);
    p.velocity = Vec2::new(i64::MAX, 0);
    assert!(!can_move(&p, 10, MoveKeys { forward_held: true, ..no_keys() }));
    assert!(can_move(&p, 10, no_keys()));
}

#[test]
fn overlap_is_strict() {
    let a = Circle { center: Vec2::new(0, 0), radius: 5 };
    assert!(circles_overlap(&a, &Circle { center: Vec2::new(6, 8), radius: 6 }));
    assert!(!circles_overlap(&a, &Circle { center: Vec2::new(6, 8), radius: 5 }));
    assert!(!circles_overlap(&a, &Circle { center: Vec2::new(i64::MAX, i64::MIN), radius: u32::MAX }));
}

#[test]
fn collisions_have_no_duplicates_or_self_pairs() {
    let mut w = World::new();
    for x in [0i64, 3, 6] {
        w.spawn(EntityKind::Obstacle, Transform::at(Vec2::new(x, 0), 0), None, Some(Circle { center: Vec2::new(x, 0), radius: 2 }));
    }
    w.spawn(EntityKind::Background, Transform::at(Vec2::new(0, 0), -1), None, None);
    let events = circle_collision_system(&w);
    assert_eq!(events, vec![CollisionEvent { first: 0, second: 1 }, CollisionEvent { first: 1, second: 2 }]);
}

#[test]
fn proxies_follow_positions() {
    let mut w = World::new();
    w.spawn(EntityKind::Obstacle, Transform::at(Vec2::new(4, 4), 0), None, Some(Circle { center: Vec2::new(0, 0), radius: 2 }));
    w.spawn(EntityKind::Background, Transform::at(Vec2::new(9, 9), 0), None, None);
    circle_update_system(&mut w);
    assert_eq!(w.entities[0].proxy, Some(Circle { center: Vec2::new(4, 4), radius: 2 }));
    assert_eq!(w.entities[1].proxy, None);
}

#[test]
fn marking_is_idempotent_and_stale_events_are_ignored() {
    let mut w = World::new();
    for x in [0i64, 100, 200] {
        w.spawn(EntityKind::Obstacle, Transform::at(Vec2::new(x, 0), 0), None, None);
    }
    let events = vec![CollisionEvent { first: 0, second: 2 }, CollisionEvent { first: 2, second: 7 }];
    asteroid_hit_system(&mut w, &events);
    asteroid_hit_system(&mut w, &events);
    let marks: Vec<bool> = w.entities.iter().map(|e| e.destroyed).collect();
    assert_eq!(marks, vec![true, false, true]);
    asteroid_destroy_system(&mut w);
    assert_eq!(w.entities.len(), 1);
    assert_eq!(w.entities[0].id, 1);
    asteroid_hit_system(&mut w, &events);
    assert!(!w.entities[0].destroyed);
    asteroid_destroy_system(&mut w);
    assert_eq!(w.entities.len(), 1);
}

#[test]
fn setup_places_player_background_and_timer() {
    let w = setup_system();
    let p = w.player.as_ref().unwrap();
    assert_eq!(p.transform.position, Vec2::new(0, 0));
    assert_eq!(p.weapon.name, "Railgun");
    assert_eq!(p.weapon.rate_of_fire, 1000);
    assert_eq!(p.transform, Transform::at(Vec2::new(0, 0), 0));
    assert_eq!(p.weapon.cooldown, 0);
    assert_eq!(w.entities.len(), 1);
    assert_eq!(w.entities[0].kind, EntityKind::Background);
    assert_eq!(w.entities[0].transform.layer, BACKGROUND_LAYER);
    assert_eq!(w.spawn_timer, Some(SpawnTimer { remaining: 0, cooldown: SPAWN_COOLDOWN }));
}

#[test]
fn first_tick_fires_and_spawns() {
    let mut w = setup_system();
    let vp = viewport();
    let input = TickInput {
        dt: 16,
        pointer: Some(Vec2::new(vp.width / 2 + 10, vp.height / 2)),
        keys: no_keys(),
        fire_held: true,
    };
    let fp = Footprints { bullet: Footprint { width: 8, height: 8 }, obstacle: Footprint { width: 32, height: 32 } };
    let report = tick(&mut w, input, vp, fp);
    assert_eq!(report.fired, Some(1));
    assert_eq!(report.spawned, Some(2));
    assert!(w.entities.iter().all(|e| !e.destroyed));
    assert_eq!(w.player.as_ref().unwrap().weapon.cooldown, 1000);
    let n_collisions = report.collisions.len();
    assert_eq!(w.entities.len(), 3 - 2 * n_collisions);
}
