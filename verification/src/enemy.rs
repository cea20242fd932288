use vstd::prelude::*;
use crate::geom::{clamped, round_units, round_units_of, step_coord, Vec2, DELTA_LIMIT};
use crate::collision::{box_hits_solid, lookahead_blocked, scan_hits_solid, tile_ahead_blocked, spawnpoints_wf, CollisionType};
use crate::bullet::Direction;
use crate::rng::gen_range_usize;

verus! {

/// Distance an enemy covers per tick, in fixed-point steps: 0.6 game units.
pub const ENEMY_SPEED: i64 = 600;

/// Side length of an enemy's hitbox: 15 game units.
pub const ENEMY_WH: i64 = 15_000;

/// Hit points a freshly spawned enemy has.
pub const ENEMY_HP: i32 = 2;

/// Largest magnitude enemy hit points may take.
pub const ENEMY_HP_LIMIT: i32 = 1_000_000;

/// Largest entity size the simulation admits: 1000 game units.
pub const WH_LIMIT: i64 = 1_000_000;

/// The movement axis an enemy favours when closing in on the player; fixed
/// at spawn.
#[derive(Clone, Copy, PartialEq, Eq, Structural, Debug)]
pub enum HorizontalVertical {
    Horizontal,
    Vertical,
}

/// A pursuing entity with greedy axis-preference movement, health and
/// terrain collision.
#[derive(Clone, Copy, PartialEq, Eq, Structural, Debug)]
pub struct Enemy {
    pub coords: Vec2,
    pub velocity: Vec2,
    pub speed: i64,
    pub wh: Vec2,
    pub preferred_direction: HorizontalVertical,
    pub hp: i32,
    pub last_blocked: bool,
    pub ldir: Direction,
}

/// Which way an enemy wants to move: close the gap to the player on its
/// preferred axis first, fall back to the other axis, and default to Down
/// when aligned with the player on both. Positions are compared at whole
/// game units.
pub open spec fn desired_direction(pref: HorizontalVertical, pc: Vec2, ec: Vec2) -> Direction {
    if pref == HorizontalVertical::Horizontal {
        if round_units(pc.x as int) > round_units(ec.x as int) {
            Direction::Right
        } else if round_units(pc.x as int) < round_units(ec.x as int) {
            Direction::Left
        } else if round_units(pc.y as int) > round_units(ec.y as int) {
            Direction::Down
        } else if round_units(pc.y as int) < round_units(ec.y as int) {
            Direction::Up
        } else {
            Direction::Down
        }
    } else {
        if round_units(pc.y as int) > round_units(ec.y as int) {
            Direction::Down
        } else if round_units(pc.y as int) < round_units(ec.y as int) {
            Direction::Up
        } else if round_units(pc.x as int) > round_units(ec.x as int) {
            Direction::Right
        } else if round_units(pc.x as int) < round_units(ec.x as int) {
            Direction::Left
        } else {
            Direction::Down
        }
    }
}

/// The desired direction, deflected to a perpendicular one when the tile one
/// step ahead is solid or the enemy was blocked last tick while moving the
/// same way; the perpendicular is picked by which side of the player the
/// enemy is on.
pub open spec fn adjusted_direction(e: Enemy, pc: Vec2, cm: Seq<CollisionType>) -> Direction {
    let g = desired_direction(e.preferred_direction, pc, e.coords);
    if g == Direction::Left || g == Direction::Right {
        if lookahead_blocked(cm, e.coords, g, e.speed as int) || (e.last_blocked && e.ldir == g) {
            if round_units(pc.y as int) >= round_units(e.coords.y as int) {
                Direction::Down
            } else {
                Direction::Up
            }
        } else {
            g
        }
    } else {
        if lookahead_blocked(cm, e.coords, g, e.speed as int) || (e.last_blocked && e.ldir == g) {
            if round_units(pc.x as int) >= round_units(e.coords.x as int) {
                Direction::Right
            } else {
                Direction::Left
            }
        } else {
            g
        }
    }
}

/// The velocity an entity moving in a cardinal direction at `speed` takes;
/// any other direction keeps `fallback`.
pub open spec fn cardinal_velocity(d: Direction, speed: i64, fallback: Vec2) -> Vec2 {
    match d {
        Direction::Left => Vec2 { x: (-speed) as i64, y: 0 },
        Direction::Right => Vec2 { x: speed, y: 0 },
        Direction::Down => Vec2 { x: 0, y: speed },
        Direction::Up => Vec2 { x: 0, y: (-speed) as i64 },
        _ => fallback,
    }
}

impl Enemy {
    pub open spec fn wf(self) -> bool {
        &&& self.coords.wf()
        &&& -DELTA_LIMIT <= self.velocity.x <= DELTA_LIMIT
        &&& -DELTA_LIMIT <= self.velocity.y <= DELTA_LIMIT
        &&& 0 <= self.speed <= DELTA_LIMIT
        &&& 0 <= self.wh.x <= WH_LIMIT
        &&& 0 <= self.wh.y <= WH_LIMIT
        &&& -ENEMY_HP_LIMIT <= self.hp <= ENEMY_HP_LIMIT
    }

    /// The enemy a spawn at `coords` with the given axis preference yields:
    /// at rest, full hit points, standard speed and hitbox.
    pub open spec fn spawned_at(coords: Vec2, pref: HorizontalVertical) -> Enemy {
        Enemy {
            coords,
            velocity: Vec2 { x: 0, y: 0 },
            speed: ENEMY_SPEED,
            wh: Vec2 { x: ENEMY_WH, y: ENEMY_WH },
            preferred_direction: pref,
            hp: ENEMY_HP,
            last_blocked: false,
            ldir: Direction::Left,
        }
    }

    /// Spawn an enemy at a known point with a known axis preference.
    pub fn with_preference(coords: Vec2, preferred_direction: HorizontalVertical) -> (e: Enemy)
        requires
            coords.wf(),
        ensures
            e == Enemy::spawned_at(coords, preferred_direction),
            e.wf(),
    {
        Enemy {
            coords,
            velocity: Vec2 { x: 0, y: 0 },
            speed: ENEMY_SPEED,
            wh: Vec2 { x: ENEMY_WH, y: ENEMY_WH },
            preferred_direction,
            hp: ENEMY_HP,
            last_blocked: false,
            ldir: Direction::Left,
        }
    }

    /// Spawn an enemy at a uniformly random spawn point with a uniformly
    /// random axis preference. Whatever the draws, the result is a fresh
    /// enemy standing on one of the given points.
    pub fn new_random(spawnpoints: &Vec<Vec2>) -> (e: Enemy)
        requires
            0 < spawnpoints@.len() <= 0x10_0000,
            spawnpoints_wf(spawnpoints@),
        ensures
            exists|i: int| 0 <= i < spawnpoints@.len() && e.coords == #[trigger] spawnpoints@[i],
            e == Enemy::spawned_at(e.coords, e.preferred_direction),
            e.wf(),
    {
        let index = gen_range_usize(0, spawnpoints.len());
        let vertical = gen_range_usize(0, 2);
        let preferred_direction = if vertical == 1 {
            HorizontalVertical::Vertical
        } else {
            HorizontalVertical::Horizontal
        };
        let e = Enemy::with_preference(spawnpoints[index], preferred_direction);
        assert(e.coords == spawnpoints@[index as int]);
        e
    }

    /// The enemy after taking `amount` damage.
    pub open spec fn damaged(self, amount: int) -> Enemy {
        Enemy { hp: (self.hp - amount) as i32, ..self }
    }

    /// Take damage; reports whether the enemy is now dead (hit points at or
    /// below zero). The caller owns removal.
    pub fn damage(&mut self, damage: i32) -> (dead: bool)
        requires
            -ENEMY_HP_LIMIT <= old(self).hp <= ENEMY_HP_LIMIT,
            -ENEMY_HP_LIMIT <= damage <= ENEMY_HP_LIMIT,
        ensures
            *final(self) == old(self).damaged(damage as int),
            final(self).hp == old(self).hp - damage,
            dead == (final(self).hp <= 0),
    {
        self.hp = self.hp - damage;
        self.hp <= 0
    }

    /// The enemy one AI-and-movement tick later: direction chosen and
    /// deflected, velocity applied, and the move reverted (with the blocked
    /// flag set) when the moved hitbox, shrunk by its inward margin,
    /// overlaps any solid tile.
    pub open spec fn after_update(self, pc: Vec2, cm: Seq<CollisionType>) -> Enemy {
        let dir = adjusted_direction(self, pc, cm);
        let vel = cardinal_velocity(dir, self.speed, self.velocity);
        let moved = Vec2 {
            x: clamped(self.coords.x + vel.x) as i64,
            y: clamped(self.coords.y + vel.y) as i64,
        };
        let blocked = box_hits_solid(
            cm,
            moved.x + 1000, moved.y + 1000,
            self.wh.x - 3000, self.wh.y - 3000,
        );
        Enemy {
            coords: if blocked { self.coords } else { moved },
            velocity: vel,
            ldir: dir,
            last_blocked: blocked,
            ..self
        }
    }

    /// One AI-and-movement tick: walk toward the player, preferring the
    /// enemy's own axis, deflecting along walls, and revert the move when
    /// terrain blocks it.
    pub fn update(&mut self, player: &crate::player::Player, collision_map: &Vec<CollisionType>)
        requires
            old(self).wf(),
            player.coords.wf(),
        ensures
            *final(self) == old(self).after_update(player.coords, collision_map@),
            final(self).wf(),
    {
        let px = round_units_of(player.coords.x);
        let py = round_units_of(player.coords.y);
        let ex = round_units_of(self.coords.x);
        let ey = round_units_of(self.coords.y);

        let mut godir: Direction = Direction::Down;
        if self.preferred_direction == HorizontalVertical::Horizontal {
            if px > ex {
                godir = Direction::Right;
            } else if px < ex {
                godir = Direction::Left;
            } else if py > ey {
                godir = Direction::Down;
            } else if py < ey {
                godir = Direction::Up;
            } else {
                godir = Direction::Down;
            }
        } else {
            if py > ey {
                godir = Direction::Down;
            } else if py < ey {
                godir = Direction::Up;
            } else if px > ex {
                godir = Direction::Right;
            } else if px < ex {
                godir = Direction::Left;
            } else {
                godir = Direction::Down;
            }
        }
        assert(godir == desired_direction(self.preferred_direction, player.coords, self.coords));

        if godir == Direction::Left || godir == Direction::Right {
            if tile_ahead_blocked(&self.coords, &godir, collision_map, self.speed)
                || (self.last_blocked && self.ldir == godir) {
                if py >= ey {
                    godir = Direction::Down;
                } else {
                    godir = Direction::Up;
                }
            }
        } else if godir == Direction::Up || godir == Direction::Down {
            if tile_ahead_blocked(&self.coords, &godir, collision_map, self.speed)
                || (self.last_blocked && self.ldir == godir) {
                if px >= ex {
                    godir = Direction::Right;
                } else {
                    godir = Direction::Left;
                }
            }
        }
        assert(godir == adjusted_direction(*self, player.coords, collision_map@));

        self.velocity = match godir {
            Direction::Left => Vec2 { x: -self.speed, y: 0 },
            Direction::Right => Vec2 { x: self.speed, y: 0 },
            Direction::Down => Vec2 { x: 0, y: self.speed },
            Direction::Up => Vec2 { x: 0, y: -self.speed },
            _ => self.velocity,
        };
        self.ldir = godir;

        self.last_blocked = false;
        let old_coords = self.coords;
        self.coords = Vec2 {
            x: step_coord(self.coords.x, self.velocity.x),
            y: step_coord(self.coords.y, self.velocity.y),
        };
        let hit = scan_hits_solid(
            collision_map,
            self.coords.x + 1000, self.coords.y + 1000,
            self.wh.x - 3000, self.wh.y - 3000,
        );
        if hit {
            self.coords = old_coords;
            self.last_blocked = true;
        }
    }
}


/// Damage accounting on a fresh enemy: of two single hits, only the second
/// one kills. `Enemy::damage` reports dead exactly when the damaged hit
/// points are at or below zero.
pub proof fn lemma_two_single_hits_kill(e: Enemy)
    requires
        e.hp == ENEMY_HP,
    ensures
        !(e.damaged(1).hp <= 0),
        e.damaged(1).damaged(1).hp <= 0,
{
}

/// Terrain reversion: an enemy whose attempted move lands its shrunk hitbox
/// on a solid tile ends the tick at its pre-move position, with the blocked
/// flag set.
pub proof fn lemma_enemy_blocked_reverts(e: Enemy, pc: Vec2, cm: Seq<CollisionType>)
    ensures
        ({
            let dir = adjusted_direction(e, pc, cm);
            let vel = cardinal_velocity(dir, e.speed, e.velocity);
            let moved = Vec2 {
                x: clamped(e.coords.x + vel.x) as i64,
                y: clamped(e.coords.y + vel.y) as i64,
            };
            box_hits_solid(cm, moved.x + 1000, moved.y + 1000, e.wh.x - 3000, e.wh.y - 3000)
                ==> e.after_update(pc, cm).coords == e.coords && e.after_update(pc, cm).last_blocked
        }),
{
}

} // verus!
