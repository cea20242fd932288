use meadow_king::bullet::{Bullet, Direction};
use meadow_king::collision::CollisionType;
use meadow_king::enemy::{Enemy, HorizontalVertical};
use meadow_king::game::{GameState, Phase, TickOutcome, UiEvent, menu_move, phase_transition};
use meadow_king::geom::Vec2;
use meadow_king::player::{key_inputs, update_fixed, KeyState};
use meadow_king::items::Item;

fn no_keys() -> KeyState {
    KeyState {
        w: false,
        a: false,
        s: false,
        d: false,
        up: false,
        down: false,
        left: false,
        right: false,
    }
}

#[test]
fn new_session_state() {
    let gs = GameState::new();
    assert_eq!(gs.stage_timer, 3000);
    assert_eq!(gs.current_stage, 0);
    assert_eq!(gs.enemies_killcount, 0);
    assert!(gs.bullets.is_empty());
    assert!(gs.enemies.is_empty());
    assert_eq!(gs.kill_goal, vec![200]);
}

#[test]
fn effect_with_one_tick_left_expires() {
    let mut gs = GameState::new();
    gs.player.effect = Some(Item::Speed);
    gs.player.effect_duration = 1;
    update_fixed(&mut gs);
    assert!(gs.player.effect.is_none());
    assert_eq!(gs.player.effect_duration, 0);
}

#[test]
fn effect_with_two_ticks_left_stays_active() {
    let mut gs = GameState::new();
    gs.player.effect = Some(Item::Speed);
    gs.player.effect_duration = 2;
    update_fixed(&mut gs);
    assert!(gs.player.effect == Some(Item::Speed));
    assert_eq!(gs.player.effect_duration, 1);
}

#[test]
fn quickshoot_arms_once_and_clears_without_effect() {
    let mut gs = GameState::new();
    gs.player.effect = Some(Item::Quickshoot);
    gs.player.effect_duration = 10;
    update_fixed(&mut gs);
    assert_eq!(gs.player.quickshoot, 12);
    update_fixed(&mut gs);
    assert_eq!(gs.player.quickshoot, 12);
    gs.player.effect = None;
    update_fixed(&mut gs);
    assert_eq!(gs.player.quickshoot, 0);
}

#[test]
fn player_move_right_on_open_ground() {
    let mut gs = GameState::new();
    let mut cooldown = 1;
    let cm: Vec<CollisionType> = vec![];
    let mut keys = no_keys();
    keys.d = true;
    key_inputs(&mut gs, &mut cooldown, &cm, &keys);
    assert_eq!(gs.player.coords, Vec2 { x: 121_000, y: 120_000 });
    assert!(!gs.player.flipped);
    keys.d = false;
    keys.a = true;
    key_inputs(&mut gs, &mut cooldown, &cm, &keys);
    assert_eq!(gs.player.coords, Vec2 { x: 120_000, y: 120_000 });
    assert!(gs.player.flipped);
}

#[test]
fn player_diagonal_applies_both_axes() {
    let mut gs = GameState::new();
    let mut cooldown = 1;
    let cm: Vec<CollisionType> = vec![];
    let mut keys = no_keys();
    keys.w = true;
    keys.a = true;
    key_inputs(&mut gs, &mut cooldown, &cm, &keys);
    assert_eq!(gs.player.coords, Vec2 { x: 119_000, y: 119_000 });
    assert!(gs.player.flipped);
}

#[test]
fn player_reverts_when_walking_into_solid_tile() {
    let mut gs = GameState::new();
    gs.player.coords = Vec2 { x: 0, y: 0 };
    let mut cooldown = 1;
    let cm = vec![CollisionType::Solid(1, 0)];
    let mut keys = no_keys();
    keys.d = true;
    key_inputs(&mut gs, &mut cooldown, &cm, &keys);
    assert_eq!(gs.player.coords, Vec2 { x: 0, y: 0 });
}

#[test]
fn player_reverts_at_world_border() {
    let mut gs = GameState::new();
    gs.player.coords = Vec2 { x: 0, y: 0 };
    let mut cooldown = 1;
    let cm: Vec<CollisionType> = vec![];
    let mut keys = no_keys();
    keys.w = true;
    key_inputs(&mut gs, &mut cooldown, &cm, &keys);
    assert_eq!(gs.player.coords, Vec2 { x: 0, y: 0 });
}

#[test]
fn shooting_spawns_one_bullet_and_arms_cooldown() {
    let mut gs = GameState::new();
    let mut cooldown = 0;
    let cm: Vec<CollisionType> = vec![];
    let mut keys = no_keys();
    keys.up = true;
    key_inputs(&mut gs, &mut cooldown, &cm, &keys);
    assert_eq!(gs.bullets.len(), 1);
    assert_eq!(gs.bullets[0].velocity, Vec2 { x: 0, y: -2000 });
    assert_eq!(gs.bullets[0].coords, Vec2 { x: 128_000, y: 128_000 });
    assert_eq!(cooldown, 30);
}

#[test]
fn quickshoot_shortens_cooldown() {
    let mut gs = GameState::new();
    gs.player.quickshoot = 12;
    let mut cooldown = 0;
    let cm: Vec<CollisionType> = vec![];
    let mut keys = no_keys();
    keys.left = true;
    keys.up = true;
    key_inputs(&mut gs, &mut cooldown, &cm, &keys);
    assert_eq!(cooldown, 18);
    assert_eq!(gs.bullets[0].velocity, Vec2 { x: -1414, y: -1414 });
}

#[test]
fn no_shot_while_cooldown_runs() {
    let mut gs = GameState::new();
    let mut cooldown = 5;
    let cm: Vec<CollisionType> = vec![];
    let mut keys = no_keys();
    keys.down = true;
    key_inputs(&mut gs, &mut cooldown, &cm, &keys);
    assert!(gs.bullets.is_empty());
    assert_eq!(cooldown, 5);
}

#[test]
fn timer_runs_out_without_transition() {
    let mut gs = GameState::new();
    gs.stage_timer = 1;
    let mut cooldown = 0;
    let mut flash: Option<usize> = None;
    let cm: Vec<CollisionType> = vec![];
    let out = gs.fixed_tick_with(&mut cooldown, &no_keys(), &cm, None, &mut flash);
    assert_eq!(gs.stage_timer, 0);
    assert_eq!(gs.current_stage, 0);
    assert!(out == TickOutcome::Running);
}

#[test]
fn expired_timer_at_exit_row_advances_stage() {
    let mut gs = GameState::new();
    gs.stage_timer = 0;
    gs.player.coords = Vec2 { x: 120_000, y: 240_000 };
    let mut cooldown = 0;
    let mut flash: Option<usize> = None;
    let cm: Vec<CollisionType> = vec![];
    let out = gs.fixed_tick_with(&mut cooldown, &no_keys(), &cm, None, &mut flash);
    assert!(out == TickOutcome::NextStage);
    assert_eq!(gs.stage_timer, 3000);
    assert_eq!(gs.current_stage, 1);
    assert_eq!(gs.player.coords, Vec2 { x: 120_000, y: 120_000 });
}

#[test]
fn bullet_wears_enemy_down_then_kills() {
    let mut gs = GameState::new();
    let mut flash: Option<usize> = None;
    gs.enemies.push(Enemy::with_preference(Vec2 { x: 0, y: 0 }, HorizontalVertical::Horizontal));
    let mut b = Bullet::new(Vec2 { x: 0, y: 0 }, Direction::Down);
    b.coords = Vec2 { x: 5000, y: 5000 };
    gs.bullets.push(b);
    gs.resolve_bullet_hits(&mut flash);
    assert_eq!(gs.enemies.len(), 1);
    assert_eq!(gs.enemies[0].hp, 1);
    assert!(gs.bullets.is_empty());
    assert_eq!(gs.enemies_killcount, 0);
    assert_eq!(flash, Some(0));

    let mut b2 = Bullet::new(Vec2 { x: 0, y: 0 }, Direction::Down);
    b2.coords = Vec2 { x: 5000, y: 5000 };
    gs.bullets.push(b2);
    gs.resolve_bullet_hits(&mut flash);
    assert!(gs.enemies.is_empty());
    assert!(gs.bullets.is_empty());
    assert_eq!(gs.enemies_killcount, 1);
}

#[test]
fn bullet_outside_hitbox_hits_nothing() {
    let mut gs = GameState::new();
    let mut flash: Option<usize> = None;
    gs.enemies.push(Enemy::with_preference(Vec2 { x: 0, y: 0 }, HorizontalVertical::Horizontal));
    let mut b = Bullet::new(Vec2 { x: 0, y: 0 }, Direction::Down);
    b.coords = Vec2 { x: 20_000, y: 5000 };
    gs.bullets.push(b);
    gs.resolve_bullet_hits(&mut flash);
    assert_eq!(gs.enemies.len(), 1);
    assert_eq!(gs.enemies[0].hp, 2);
    assert_eq!(gs.bullets.len(), 1);
    assert_eq!(flash, None);
}

#[test]
fn contact_at_one_health_ends_in_death() {
    let mut gs = GameState::new();
    gs.player.health = 1;
    gs.stage_timer = 10;
    gs.enemies.push(Enemy::with_preference(gs.player.coords, HorizontalVertical::Horizontal));
    let mut cooldown = 0;
    let mut flash: Option<usize> = None;
    let cm: Vec<CollisionType> = vec![];
    let out = gs.fixed_tick_with(&mut cooldown, &no_keys(), &cm, None, &mut flash);
    assert!(out == TickOutcome::Dead);
    assert_eq!(gs.player.health, 0);
    assert!(gs.enemies.is_empty());
    assert_eq!(gs.player.coords, Vec2 { x: 120_000, y: 120_000 });
}

#[test]
fn contact_costs_health_and_grants_grace_period() {
    let mut gs = GameState::new();
    gs.stage_timer = 10;
    gs.enemies.push(Enemy::with_preference(gs.player.coords, HorizontalVertical::Vertical));
    gs.enemies.push(Enemy::with_preference(Vec2 { x: 0, y: 0 }, HorizontalVertical::Vertical));
    let mut cooldown = 0;
    let mut flash: Option<usize> = None;
    let cm: Vec<CollisionType> = vec![];
    let out = gs.fixed_tick_with(&mut cooldown, &no_keys(), &cm, None, &mut flash);
    assert!(out == TickOutcome::Running);
    assert_eq!(gs.player.health, 2);
    assert_eq!(gs.stage_timer, 9 + 50);
    assert!(gs.enemies.is_empty());
    assert_eq!(gs.player.coords, Vec2 { x: 120_000, y: 120_000 });
}

#[test]
fn spawned_enemy_joins_while_timer_runs() {
    let mut gs = GameState::new();
    gs.stage_timer = 100;
    let spawn = Enemy::with_preference(Vec2 { x: 1000, y: 1000 }, HorizontalVertical::Horizontal);
    let mut cooldown = 0;
    let mut flash: Option<usize> = None;
    let cm: Vec<CollisionType> = vec![];
    gs.fixed_tick_with(&mut cooldown, &no_keys(), &cm, Some(spawn), &mut flash);
    assert_eq!(gs.enemies.len(), 1);
    assert_eq!(gs.stage_timer, 99);
}

#[test]
fn no_spawn_once_timer_expired() {
    let mut gs = GameState::new();
    gs.stage_timer = 0;
    let spawn = Enemy::with_preference(Vec2 { x: 1000, y: 1000 }, HorizontalVertical::Horizontal);
    let mut cooldown = 0;
    let mut flash: Option<usize> = None;
    let cm: Vec<CollisionType> = vec![];
    gs.fixed_tick_with(&mut cooldown, &no_keys(), &cm, Some(spawn), &mut flash);
    assert!(gs.enemies.is_empty());
    assert_eq!(gs.stage_timer, 0);
}

#[test]
fn cooldown_counts_down_each_tick() {
    let mut gs = GameState::new();
    let mut cooldown = 3;
    let mut flash: Option<usize> = None;
    let cm: Vec<CollisionType> = vec![];
    gs.fixed_tick_with(&mut cooldown, &no_keys(), &cm, None, &mut flash);
    assert_eq!(cooldown, 2);
}

#[test]
fn bullets_advance_each_tick() {
    let mut gs = GameState::new();
    gs.bullets.push(Bullet::new(Vec2 { x: 0, y: 0 }, Direction::Right));
    let mut cooldown = 1;
    let mut flash: Option<usize> = None;
    let cm: Vec<CollisionType> = vec![];
    gs.fixed_tick_with(&mut cooldown, &no_keys(), &cm, None, &mut flash);
    assert_eq!(gs.bullets[0].coords, Vec2 { x: 10_000, y: 8000 });
}

#[test]
fn random_ticks_spawn_at_most_one_enemy_each() {
    let mut gs = GameState::new();
    gs.player.coords = Vec2 { x: 0, y: 0 };
    let spawnpoints = vec![Vec2 { x: 225_000, y: 225_000 }];
    let mut cooldown = 1;
    let mut flash: Option<usize> = None;
    let cm: Vec<CollisionType> = vec![];
    for tick in 0..300 {
        gs.fixed_tick(&mut cooldown, &no_keys(), &cm, &spawnpoints, &mut flash);
        assert!(gs.enemies.len() <= tick + 1);
    }
    for e in &gs.enemies {
        assert_eq!(e.hp, 2);
    }
}

#[test]
fn menu_selection_wraps() {
    assert_eq!(menu_move(0, 3, true), 2);
    assert_eq!(menu_move(2, 3, true), 1);
    assert_eq!(menu_move(2, 3, false), 0);
    assert_eq!(menu_move(0, 3, false), 1);
}

#[test]
fn phase_machine_follows_the_table() {
    let c = phase_transition(Phase::MainMenu, UiEvent::Confirm, 0);
    assert!(c.next == Phase::Playing && !c.quit && !c.new_session);
    let c = phase_transition(Phase::MainMenu, UiEvent::Confirm, 1);
    assert!(c.next == Phase::Settings);
    let c = phase_transition(Phase::MainMenu, UiEvent::Confirm, 2);
    assert!(c.quit);
    let c = phase_transition(Phase::Playing, UiEvent::Back, 0);
    assert!(c.next == Phase::PauseMenu);
    let c = phase_transition(Phase::PauseMenu, UiEvent::Back, 0);
    assert!(c.next == Phase::Playing);
    let c = phase_transition(Phase::PauseMenu, UiEvent::Quit, 0);
    assert!(c.quit);
    let c = phase_transition(Phase::Dead, UiEvent::Restart, 0);
    assert!(c.next == Phase::MainMenu && c.new_session);
    let c = phase_transition(Phase::Settings, UiEvent::Restart, 0);
    assert!(c.next == Phase::MainMenu);
    let c = phase_transition(Phase::Playing, UiEvent::Confirm, 0);
    assert!(c.next == Phase::Playing && !c.quit && !c.new_session);
}

#[test]
fn blocked_enemy_deflects_perpendicular() {
    let cm: Vec<CollisionType> = vec![];
    let mut player = meadow_king::player::Player::default();
    player.coords = Vec2 { x: 100_000, y: 50_000 };
    let mut e = Enemy::with_preference(Vec2 { x: 0, y: 0 }, HorizontalVertical::Horizontal);
    e.last_blocked = true;
    e.ldir = Direction::Right;
    e.update(&player, &cm);
    assert_eq!(e.coords, Vec2 { x: 0, y: 600 });
    assert!(!e.last_blocked);
}

#[test]
fn dead_player_ends_tick_without_contact() {
    let mut gs = GameState::new();
    gs.player.health = 0;
    let mut cooldown = 0;
    let mut flash: Option<usize> = None;
    let cm: Vec<CollisionType> = vec![];
    let out = gs.fixed_tick_with(&mut cooldown, &no_keys(), &cm, None, &mut flash);
    assert!(out == TickOutcome::Dead);
}

#[test]
fn player_reverts_at_far_world_border() {
    let mut gs = GameState::new();
    gs.player.coords = Vec2 { x: 240_000, y: 240_000 };
    let mut cooldown = 1;
    let cm: Vec<CollisionType> = vec![];
    let mut keys = no_keys();
    keys.s = true;
    keys.d = true;
    key_inputs(&mut gs, &mut cooldown, &cm, &keys);
    assert_eq!(gs.player.coords, Vec2 { x: 240_000, y: 240_000 });
}
