use vstd::prelude::*;
use crate::geom::{clamped, step_coord, Vec2, GAME_H, GAME_W, TILE_SIZE};
use crate::collision::{box_hits_solid, scan_hits_solid, CollisionType};
use crate::bullet::{bullet_velocity, Bullet, Direction};
use crate::enemy::WH_LIMIT;
use crate::items::Item;
use crate::game::GameState;

verus! {

/// Distance the player covers per tick on one axis, in fixed-point steps:
/// 1 game unit. Its square root is the same, so diagonal movement applies
/// the full speed on both axes.
pub const PLAYER_SPEED: i64 = 1000;

/// Ticks between shots before the quickshoot bonus is taken off.
pub const SHOOT_COOLDOWN_MAX: i32 = 30;

/// The cooldown reduction a running quickshoot effect grants.
pub const QUICKSHOOT_BONUS: i32 = 12;

/// Health a fresh player starts with.
pub const PLAYER_HEALTH: i32 = 3;

/// Floor player health saturates at, so the counter stays in range; play
/// ends long before, when health reaches zero.
pub const HEALTH_FLOOR: i32 = -1_000_000_000;

/// The fixed centre point of the stage's visible area the player is reset
/// to: half the playfield less half a sprite, on both axes.
pub const PLAYER_CENTER: i64 = 120_000;

/// The snapshot of held movement and shoot keys one tick consumes.
#[derive(Clone, Copy, PartialEq, Eq, Structural, Debug)]
pub struct KeyState {
    pub w: bool,
    pub a: bool,
    pub s: bool,
    pub d: bool,
    pub up: bool,
    pub down: bool,
    pub left: bool,
    pub right: bool,
}

/// The user-controlled entity: position, facing, timed pickup effects, shoot
/// bookkeeping and health.
#[derive(Clone, Copy, PartialEq, Eq, Structural, Debug)]
pub struct Player {
    pub coords: Vec2,
    pub flipped: bool,
    pub wh: Vec2,
    pub effect: Option<Item>,
    pub held_effect: Option<Item>,
    pub quickshoot: i32,
    pub effect_duration: i32,
    pub strength: i32,
    pub health: i32,
}

impl Player {
    pub open spec fn wf(self) -> bool {
        &&& self.coords.wf()
        &&& 0 <= self.wh.x <= WH_LIMIT
        &&& 0 <= self.wh.y <= WH_LIMIT
        &&& 0 <= self.quickshoot <= SHOOT_COOLDOWN_MAX
        &&& 0 <= self.effect_duration
        &&& 0 <= self.strength <= 1000
        &&& HEALTH_FLOOR <= self.health
    }

    pub open spec fn center_coords() -> Vec2 {
        Vec2 { x: PLAYER_CENTER, y: PLAYER_CENTER }
    }

    /// Recentre the player to the fixed middle of the stage's visible area,
    /// leaving every other stat untouched. The target point never depends on
    /// the prior position or stats.
    pub fn reset_coords(&mut self)
        ensures
            *final(self) == (Player { coords: Player::center_coords(), ..*old(self) }),
    {
        self.coords = Vec2 { x: PLAYER_CENTER, y: PLAYER_CENTER };
    }
}

/// The stats a fresh player starts with: centred, one tile large, no
/// effects, full health.
pub open spec fn default_player() -> Player {
    Player {
        coords: Player::center_coords(),
        flipped: false,
        wh: Vec2 { x: TILE_SIZE, y: TILE_SIZE },
        effect: None,
        held_effect: None,
        quickshoot: 0,
        effect_duration: 0,
        strength: 1,
        health: PLAYER_HEALTH,
    }
}

impl Default for Player {
    /// A fresh player: centred, one tile large, no effects, full health.
    fn default() -> (p: Player)
        ensures
            p == default_player(),
            p.wf(),
    {
        Player {
            coords: Vec2 { x: PLAYER_CENTER, y: PLAYER_CENTER },
            flipped: false,
            wh: Vec2 { x: TILE_SIZE, y: TILE_SIZE },
            effect: None,
            held_effect: None,
            quickshoot: 0,
            effect_duration: 0,
            strength: 1,
            health: PLAYER_HEALTH,
        }
    }
}

/// The player after one tick of effect bookkeeping: a running effect
/// duration is decremented and the effect expires on the decrement that
/// lands on zero; a running quickshoot effect arms the cooldown bonus once,
/// and no effect forces the bonus back to zero.
pub open spec fn player_after_effects(p: Player) -> Player {
    let duration = if p.effect_duration > 0 { (p.effect_duration - 1) as i32 } else { p.effect_duration };
    let effect = if p.effect_duration > 0 && duration == 0 { None } else { p.effect };
    let quickshoot = if effect == Some(Item::Quickshoot) && p.quickshoot == 0 {
        QUICKSHOOT_BONUS
    } else if effect is None && p.quickshoot != 0 {
        0
    } else {
        p.quickshoot
    };
    Player { effect_duration: duration, effect, quickshoot, ..p }
}

/// Effect bookkeeping, once per fixed tick.
pub fn update_fixed(gs: &mut GameState)
    requires
        old(gs).player.wf(),
    ensures
        final(gs).player == player_after_effects(old(gs).player),
        final(gs).player.wf(),
        final(gs).bullets@ == old(gs).bullets@,
        final(gs).enemies@ == old(gs).enemies@,
        final(gs).enemies_killcount == old(gs).enemies_killcount,
        final(gs).kill_goal@ == old(gs).kill_goal@,
        final(gs).current_stage == old(gs).current_stage,
        final(gs).stage_timer == old(gs).stage_timer,
{
    if gs.player.effect_duration > 0 {
        gs.player.effect_duration = gs.player.effect_duration - 1;
        if gs.player.effect_duration == 0 {
            gs.player.effect = None;
        }
    }
    match &gs.player.effect {
        Some(effect) => {
            if *effect == Item::Quickshoot && gs.player.quickshoot == 0 {
                gs.player.quickshoot = QUICKSHOOT_BONUS;
            }
        },
        None => {
            if gs.player.quickshoot != 0 {
                gs.player.quickshoot = 0;
            }
        },
    }
}

/// The displacement one tick of held movement keys asks for, and the facing
/// flip it sets: diagonal pairs first, then single cardinals, first match
/// wins.
pub open spec fn move_choice(k: KeyState) -> (int, int, Option<bool>) {
    if k.w && k.a {
        (-PLAYER_SPEED as int, -PLAYER_SPEED as int, Some(true))
    } else if k.s && k.a {
        (-PLAYER_SPEED as int, PLAYER_SPEED as int, Some(true))
    } else if k.w && k.d {
        (PLAYER_SPEED as int, -PLAYER_SPEED as int, Some(false))
    } else if k.s && k.d {
        (PLAYER_SPEED as int, PLAYER_SPEED as int, Some(false))
    } else if k.w {
        (0int, -PLAYER_SPEED as int, None)
    } else if k.a {
        (-PLAYER_SPEED as int, 0int, Some(true))
    } else if k.d {
        (PLAYER_SPEED as int, 0int, Some(false))
    } else if k.s {
        (0int, PLAYER_SPEED as int, None)
    } else {
        (0int, 0int, None)
    }
}

/// The direction one tick of held shoot keys fires in: diagonal pairs first
/// (in the same priority order as movement), then the cardinals up, down,
/// left, right; first match wins.
pub open spec fn shoot_choice(k: KeyState) -> Option<Direction> {
    if k.up && k.left {
        Some(Direction::Leftup)
    } else if k.down && k.left {
        Some(Direction::Leftdown)
    } else if k.up && k.right {
        Some(Direction::Rightup)
    } else if k.down && k.right {
        Some(Direction::Rightdown)
    } else if k.up {
        Some(Direction::Up)
    } else if k.down {
        Some(Direction::Down)
    } else if k.left {
        Some(Direction::Left)
    } else if k.right {
        Some(Direction::Right)
    } else {
        None
    }
}

/// The player after one tick of movement: the asked-for displacement is
/// applied, reverted entirely when the moved hitbox (shrunk by its inward
/// margin) overlaps a solid tile, and reverted entirely again when the
/// result would cross the playfield's edge.
pub open spec fn player_after_move(p: Player, k: KeyState, cm: Seq<CollisionType>) -> Player {
    let choice = move_choice(k);
    let tent = Vec2 {
        x: clamped(p.coords.x + choice.0) as i64,
        y: clamped(p.coords.y + choice.1) as i64,
    };
    let hit = box_hits_solid(cm, tent.x + 2000, tent.y + 2000, p.wh.x - 2000, p.wh.y - 2000);
    let after_tiles = if hit { p.coords } else { tent };
    let out = after_tiles.x < 0 || after_tiles.y < 0
        || after_tiles.x + p.wh.x > GAME_W || after_tiles.y + p.wh.y > GAME_H;
    let coords = if out { p.coords } else { after_tiles };
    let flipped = match choice.2 {
        Some(f) => f,
        None => p.flipped,
    };
    Player { coords, flipped, ..p }
}

/// Movement and shooting, once per fixed tick: move by the held keys with
/// terrain and world-bounds reversion; then, when the shared cooldown is
/// exactly zero and a shoot key is held, spawn one projectile at the moved
/// position and reset the cooldown to its maximum less the quickshoot bonus.
pub fn key_inputs(gs: &mut GameState, shoot_cooldown: &mut i32, collision_map: &Vec<CollisionType>, keys: &KeyState)
    requires
        old(gs).player.wf(),
    ensures
        final(gs).player == player_after_move(old(gs).player, *keys, collision_map@),
        final(gs).player.wf(),
        ({
            let moved = player_after_move(old(gs).player, *keys, collision_map@);
            if *old(shoot_cooldown) == 0 && shoot_choice(*keys) is Some {
                &&& final(gs).bullets@ == old(gs).bullets@.push(Bullet {
                    coords: Bullet::spawn_coords(moved.coords),
                    velocity: bullet_velocity(shoot_choice(*keys)->Some_0),
                })
                &&& *final(shoot_cooldown) == SHOOT_COOLDOWN_MAX - old(gs).player.quickshoot
            } else {
                &&& final(gs).bullets@ == old(gs).bullets@
                &&& *final(shoot_cooldown) == *old(shoot_cooldown)
            }
        }),
        final(gs).enemies@ == old(gs).enemies@,
        final(gs).enemies_killcount == old(gs).enemies_killcount,
        final(gs).kill_goal@ == old(gs).kill_goal@,
        final(gs).current_stage == old(gs).current_stage,
        final(gs).stage_timer == old(gs).stage_timer,
{
    let old_coords = gs.player.coords;
    if keys.w && keys.a {
        gs.player.coords = Vec2 {
            x: step_coord(gs.player.coords.x, -PLAYER_SPEED),
            y: step_coord(gs.player.coords.y, -PLAYER_SPEED),
        };
        gs.player.flipped = true;
    } else if keys.s && keys.a {
        gs.player.coords = Vec2 {
            x: step_coord(gs.player.coords.x, -PLAYER_SPEED),
            y: step_coord(gs.player.coords.y, PLAYER_SPEED),
        };
        gs.player.flipped = true;
    } else if keys.w && keys.d {
        gs.player.coords = Vec2 {
            x: step_coord(gs.player.coords.x, PLAYER_SPEED),
            y: step_coord(gs.player.coords.y, -PLAYER_SPEED),
        };
        gs.player.flipped = false;
    } else if keys.s && keys.d {
        gs.player.coords = Vec2 {
            x: step_coord(gs.player.coords.x, PLAYER_SPEED),
            y: step_coord(gs.player.coords.y, PLAYER_SPEED),
        };
        gs.player.flipped = false;
    } else if keys.w {
        gs.player.coords = Vec2 {
            x: gs.player.coords.x,
            y: step_coord(gs.player.coords.y, -PLAYER_SPEED),
        };
    } else if keys.a {
        gs.player.coords = Vec2 {
            x: step_coord(gs.player.coords.x, -PLAYER_SPEED),
            y: gs.player.coords.y,
        };
        gs.player.flipped = true;
    } else if keys.d {
        gs.player.coords = Vec2 {
            x: step_coord(gs.player.coords.x, PLAYER_SPEED),
            y: gs.player.coords.y,
        };
        gs.player.flipped = false;
    } else if keys.s {
        gs.player.coords = Vec2 {
            x: gs.player.coords.x,
            y: step_coord(gs.player.coords.y, PLAYER_SPEED),
        };
    }

    let hit = scan_hits_solid(
        collision_map,
        gs.player.coords.x + 2000, gs.player.coords.y + 2000,
        gs.player.wh.x - 2000, gs.player.wh.y - 2000,
    );
    if hit {
        gs.player.coords = old_coords;
    }

    if gs.player.coords.x < 0 || gs.player.coords.y < 0
        || gs.player.coords.x + gs.player.wh.x > GAME_W
        || gs.player.coords.y + gs.player.wh.y > GAME_H {
        gs.player.coords = old_coords;
    }

    if *shoot_cooldown == 0 {
        let dir: Option<Direction> = if keys.up && keys.left {
            Some(Direction::Leftup)
        } else if keys.down && keys.left {
            Some(Direction::Leftdown)
        } else if keys.up && keys.right {
            Some(Direction::Rightup)
        } else if keys.down && keys.right {
            Some(Direction::Rightdown)
        } else if keys.up {
            Some(Direction::Up)
        } else if keys.down {
            Some(Direction::Down)
        } else if keys.left {
            Some(Direction::Left)
        } else if keys.right {
            Some(Direction::Right)
        } else {
            None
        };
        if let Some(d) = dir {
            let b = Bullet::new(gs.player.coords, d);
            gs.bullets.push(b);
            *shoot_cooldown = SHOOT_COOLDOWN_MAX - gs.player.quickshoot;
        }
    }
}


/// Effect expiry: one bookkeeping tick on a running effect with one tick
/// left clears it; with two ticks left it stays active with one tick left.
pub proof fn lemma_effect_expiry(p: Player)
    requires
        p.effect is Some,
    ensures
        p.effect_duration == 1 ==> player_after_effects(p).effect is None,
        p.effect_duration == 2 ==> player_after_effects(p).effect == p.effect
            && player_after_effects(p).effect_duration == 1,
{
}

/// Terrain reversion: a player whose attempted move lands its shrunk hitbox
/// on a solid tile ends the tick at its pre-move position.
pub proof fn lemma_player_blocked_reverts(p: Player, k: KeyState, cm: Seq<CollisionType>)
    ensures
        ({
            let choice = move_choice(k);
            let tent = Vec2 {
                x: clamped(p.coords.x + choice.0) as i64,
                y: clamped(p.coords.y + choice.1) as i64,
            };
            box_hits_solid(cm, tent.x + 2000, tent.y + 2000, p.wh.x - 2000, p.wh.y - 2000)
                ==> player_after_move(p, k, cm).coords == p.coords
        }),
{
}

} // verus!
