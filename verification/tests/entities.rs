use meadow_king::bullet::{Bullet, Direction};
use meadow_king::collision::{build_collision_map, build_spawnpoints, scan_hits_solid, CollisionType};
use meadow_king::enemy::{Enemy, HorizontalVertical};
use meadow_king::geom::{round_units_of, tile_of_coord, Vec2};
use meadow_king::player::{KeyState, Player};

fn no_keys() -> KeyState {
    KeyState {
        w: false,
        a: false,
        s: false,
        d: false,
        up: false,
        down: false,
        left: false,
        right: false,
    }
}

#[test]
fn bullet_velocity_all_directions() {
    let o = Vec2 { x: 0, y: 0 };
    assert_eq!(Bullet::new(o, Direction::Up).velocity, Vec2 { x: 0, y: -2000 });
    assert_eq!(Bullet::new(o, Direction::Down).velocity, Vec2 { x: 0, y: 2000 });
    assert_eq!(Bullet::new(o, Direction::Left).velocity, Vec2 { x: -2000, y: 0 });
    assert_eq!(Bullet::new(o, Direction::Right).velocity, Vec2 { x: 2000, y: 0 });
    assert_eq!(Bullet::new(o, Direction::Leftup).velocity, Vec2 { x: -1414, y: -1414 });
    assert_eq!(Bullet::new(o, Direction::Leftdown).velocity, Vec2 { x: -1414, y: 1414 });
    assert_eq!(Bullet::new(o, Direction::Rightup).velocity, Vec2 { x: 1414, y: -1414 });
    assert_eq!(Bullet::new(o, Direction::Rightdown).velocity, Vec2 { x: 1414, y: 1414 });
}

#[test]
fn bullet_spawns_at_muzzle_offset() {
    let b = Bullet::new(Vec2 { x: 100, y: -9000 }, Direction::Up);
    assert_eq!(b.coords, Vec2 { x: 8100, y: -1000 });
}

#[test]
fn bullet_update_applies_velocity() {
    let mut b = Bullet::new(Vec2 { x: 0, y: 0 }, Direction::Rightdown);
    b.update();
    assert_eq!(b.coords, Vec2 { x: 9414, y: 9414 });
    b.update();
    assert_eq!(b.coords, Vec2 { x: 10828, y: 10828 });
}

#[test]
fn bullet_compares_by_value() {
    let a = Bullet::new(Vec2 { x: 5, y: 6 }, Direction::Left);
    let b = Bullet::new(Vec2 { x: 5, y: 6 }, Direction::Left);
    let c = Bullet::new(Vec2 { x: 5, y: 6 }, Direction::Right);
    assert!(a == b);
    assert!(a != c);
}

#[test]
fn enemy_dies_on_second_hit_only() {
    let mut e = Enemy::with_preference(Vec2 { x: 0, y: 0 }, HorizontalVertical::Horizontal);
    assert_eq!(e.hp, 2);
    assert!(!e.damage(1));
    assert_eq!(e.hp, 1);
    assert!(e.damage(1));
    assert_eq!(e.hp, 0);
}

#[test]
fn enemy_damage_takes_full_amount() {
    let mut e = Enemy::with_preference(Vec2 { x: 0, y: 0 }, HorizontalVertical::Vertical);
    assert!(e.damage(5));
    assert_eq!(e.hp, -3);
}

#[test]
fn player_reset_coords_is_fixed_point() {
    let mut p = Player::default();
    p.coords = Vec2 { x: 31337, y: -777 };
    p.health = 1;
    p.strength = 9;
    p.reset_coords();
    assert_eq!(p.coords, Vec2 { x: 120_000, y: 120_000 });
    let mut q = Player::default();
    q.coords = Vec2 { x: 0, y: 0 };
    q.reset_coords();
    assert_eq!(q.coords, Vec2 { x: 120_000, y: 120_000 });
    assert_eq!(p.health, 1);
    assert_eq!(p.strength, 9);
}

#[test]
fn player_default_stats() {
    let p = Player::default();
    assert_eq!(p.coords, Vec2 { x: 120_000, y: 120_000 });
    assert_eq!(p.wh, Vec2 { x: 16_000, y: 16_000 });
    assert!(!p.flipped);
    assert!(p.effect.is_none());
    assert!(p.held_effect.is_none());
    assert_eq!(p.quickshoot, 0);
    assert_eq!(p.effect_duration, 0);
    assert_eq!(p.strength, 1);
    assert_eq!(p.health, 3);
}

#[test]
fn enemy_blocked_by_terrain_reverts_and_flags() {
    // Solid tile under the enemy: both its deflected moves land inside it.
    let cm = vec![CollisionType::Solid(0, 0)];
    let player = Player::default();
    let mut e = Enemy::with_preference(Vec2 { x: 0, y: 0 }, HorizontalVertical::Horizontal);
    e.update(&player, &cm);
    assert_eq!(e.coords, Vec2 { x: 0, y: 0 });
    assert!(e.last_blocked);
}

#[test]
fn enemy_walks_toward_player_on_open_ground() {
    let cm: Vec<CollisionType> = vec![];
    let mut player = Player::default();
    player.coords = Vec2 { x: 100_000, y: 0 };
    let mut e = Enemy::with_preference(Vec2 { x: 0, y: 0 }, HorizontalVertical::Horizontal);
    e.update(&player, &cm);
    assert_eq!(e.coords, Vec2 { x: 600, y: 0 });
    assert!(!e.last_blocked);
}

#[test]
fn enemy_prefers_vertical_axis() {
    let cm: Vec<CollisionType> = vec![];
    let mut player = Player::default();
    player.coords = Vec2 { x: 100_000, y: 100_000 };
    let mut e = Enemy::with_preference(Vec2 { x: 0, y: 0 }, HorizontalVertical::Vertical);
    e.update(&player, &cm);
    assert_eq!(e.coords, Vec2 { x: 0, y: 600 });
}

#[test]
fn collision_map_keeps_one_entry_per_tile() {
    let tiles = vec![(0u32, 0u32, true), (1, 0, false), (2, 5, true)];
    let cm = build_collision_map(&tiles);
    assert_eq!(cm.len(), 3);
    assert!(cm[0] == CollisionType::Solid(0, 0));
    assert!(cm[1] == CollisionType::Empty(1, 0));
    assert!(cm[2] == CollisionType::Solid(2, 5));
}

#[test]
fn spawnpoints_sit_one_unit_into_their_tile() {
    let tiles = vec![(2u32, 3u32, true), (4, 4, false), (0, 0, true)];
    let sp = build_spawnpoints(&tiles);
    assert_eq!(sp.len(), 2);
    assert_eq!(sp[0], Vec2 { x: 33_000, y: 49_000 });
    assert_eq!(sp[1], Vec2 { x: 1000, y: 1000 });
}

#[test]
fn random_spawn_uses_given_points() {
    let sp = vec![Vec2 { x: 1000, y: 1000 }];
    let e = Enemy::new_random(&sp);
    assert_eq!(e.coords, Vec2 { x: 1000, y: 1000 });
    assert_eq!(e.hp, 2);
    assert_eq!(e.wh, Vec2 { x: 15_000, y: 15_000 });
    assert!(!e.last_blocked);

    let two = vec![Vec2 { x: 1000, y: 1000 }, Vec2 { x: 17_000, y: 33_000 }];
    for _ in 0..100 {
        let e = Enemy::new_random(&two);
        assert!(e.coords == two[0] || e.coords == two[1]);
    }
}

#[test]
fn solid_scan_is_inclusive_at_edges() {
    let cm = vec![CollisionType::Solid(1, 0)];
    // A box whose right edge exactly touches the tile's left edge counts.
    assert!(scan_hits_solid(&cm, 0, 0, 16_000, 10, ));
    // One step short of touching does not.
    assert!(!scan_hits_solid(&cm, 0, 0, 15_999, 10));
    // An empty cell never blocks.
    let cm2 = vec![CollisionType::Empty(1, 0)];
    assert!(!scan_hits_solid(&cm2, 0, 0, 16_000, 10));
}

#[test]
fn rounding_and_tiles_match_the_grid() {
    assert_eq!(round_units_of(1500), 2);
    assert_eq!(round_units_of(1499), 1);
    assert_eq!(round_units_of(-1500), -2);
    assert_eq!(round_units_of(-1499), -1);
    assert_eq!(round_units_of(0), 0);
    assert_eq!(tile_of_coord(0), 0);
    assert_eq!(tile_of_coord(15_999), 0);
    assert_eq!(tile_of_coord(16_000), 1);
    assert_eq!(tile_of_coord(-5), 0);
}

#[test]
fn keystate_defaults_move_nothing() {
    let k = no_keys();
    assert!(!k.w && !k.a && !k.s && !k.d && !k.up && !k.down && !k.left && !k.right);
}
