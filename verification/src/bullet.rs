use vstd::prelude::*;
use crate::geom::{clamped, step_coord, Vec2, DELTA_LIMIT};

verus! {

/// One of the eight directions an entity can move or shoot in.
#[derive(Clone, Copy, PartialEq, Eq, Structural, Debug)]
pub enum Direction {
    Up,
    Down,
    Left,
    Right,
    Leftup,
    Leftdown,
    Rightup,
    Rightdown,
}

/// Speed of a projectile along one axis of an orthogonal shot, in
/// fixed-point steps per tick: 2 game units.
pub const BULLET_SPEED: i64 = 2000;

/// Per-axis speed of a diagonal shot: the square root of `BULLET_SPEED` in
/// game units, rounded to fixed-point steps. Diagonal shots deliberately
/// travel at a different total speed than orthogonal ones.
pub const BULLET_SPEED_DIAG: i64 = 1414;

/// Distance from an entity's top-left corner to the muzzle a shot leaves
/// from: half the player's sprite, so shots start at its centre.
pub const MUZZLE_OFFSET: i64 = 8000;

/// The constant velocity a projectile fired in direction `d` keeps.
pub open spec fn bullet_velocity(d: Direction) -> Vec2 {
    match d {
        Direction::Up => Vec2 { x: 0, y: (-BULLET_SPEED) as i64 },
        Direction::Down => Vec2 { x: 0, y: BULLET_SPEED },
        Direction::Left => Vec2 { x: (-BULLET_SPEED) as i64, y: 0 },
        Direction::Right => Vec2 { x: BULLET_SPEED, y: 0 },
        Direction::Leftup => Vec2 { x: (-BULLET_SPEED_DIAG) as i64, y: (-BULLET_SPEED_DIAG) as i64 },
        Direction::Leftdown => Vec2 { x: (-BULLET_SPEED_DIAG) as i64, y: BULLET_SPEED_DIAG },
        Direction::Rightup => Vec2 { x: BULLET_SPEED_DIAG, y: (-BULLET_SPEED_DIAG) as i64 },
        Direction::Rightdown => Vec2 { x: BULLET_SPEED_DIAG, y: BULLET_SPEED_DIAG },
    }
}

/// A point-like projectile with a constant velocity. It never collides with
/// terrain; only a hit on an enemy removes it.
#[derive(Clone, Copy, PartialEq, Eq, Structural, Debug)]
pub struct Bullet {
    pub coords: Vec2,
    pub velocity: Vec2,
}

impl Bullet {
    pub open spec fn wf(self) -> bool {
        &&& self.coords.wf()
        &&& -DELTA_LIMIT <= self.velocity.x <= DELTA_LIMIT
        &&& -DELTA_LIMIT <= self.velocity.y <= DELTA_LIMIT
    }

    /// Where a shot fired from `coords` starts: the muzzle offset applied to
    /// both axes.
    pub open spec fn spawn_coords(coords: Vec2) -> Vec2 {
        Vec2 {
            x: clamped(coords.x + MUZZLE_OFFSET) as i64,
            y: clamped(coords.y + MUZZLE_OFFSET) as i64,
        }
    }

    /// Create a projectile shot from `coords` in direction `dir`.
    pub fn new(coords: Vec2, dir: Direction) -> (b: Bullet)
        requires
            coords.wf(),
        ensures
            b.velocity == bullet_velocity(dir),
            b.coords == Self::spawn_coords(coords),
            b.wf(),
    {
        let velocity = match dir {
            Direction::Up => Vec2 { x: 0, y: -BULLET_SPEED },
            Direction::Down => Vec2 { x: 0, y: BULLET_SPEED },
            Direction::Left => Vec2 { x: -BULLET_SPEED, y: 0 },
            Direction::Right => Vec2 { x: BULLET_SPEED, y: 0 },
            Direction::Leftup => Vec2 { x: -BULLET_SPEED_DIAG, y: -BULLET_SPEED_DIAG },
            Direction::Leftdown => Vec2 { x: -BULLET_SPEED_DIAG, y: BULLET_SPEED_DIAG },
            Direction::Rightup => Vec2 { x: BULLET_SPEED_DIAG, y: -BULLET_SPEED_DIAG },
            Direction::Rightdown => Vec2 { x: BULLET_SPEED_DIAG, y: BULLET_SPEED_DIAG },
        };
        Bullet {
            velocity,
            coords: Vec2 {
                x: step_coord(coords.x, MUZZLE_OFFSET),
                y: step_coord(coords.y, MUZZLE_OFFSET),
            },
        }
    }

    /// The projectile after one fixed tick: its velocity applied once.
    pub open spec fn stepped(self) -> Bullet {
        Bullet {
            coords: Vec2 {
                x: clamped(self.coords.x + self.velocity.x) as i64,
                y: clamped(self.coords.y + self.velocity.y) as i64,
            },
            velocity: self.velocity,
        }
    }

    /// Advance the projectile by one fixed tick.
    pub fn update(&mut self)
        requires
            old(self).wf(),
        ensures
            *final(self) == old(self).stepped(),
            final(self).wf(),
    {
        self.coords = Vec2 {
            x: step_coord(self.coords.x, self.velocity.x),
            y: step_coord(self.coords.y, self.velocity.y),
        };
    }
}


/// The horizontal sign of a direction: negative left, positive right.
pub open spec fn dir_x_sign(d: Direction) -> int {
    match d {
        Direction::Up => 0,
        Direction::Down => 0,
        Direction::Left => -1,
        Direction::Right => 1,
        Direction::Leftup => -1,
        Direction::Leftdown => -1,
        Direction::Rightup => 1,
        Direction::Rightdown => 1,
    }
}

/// The vertical sign of a direction: negative up, positive down.
pub open spec fn dir_y_sign(d: Direction) -> int {
    match d {
        Direction::Up => -1,
        Direction::Down => 1,
        Direction::Left => 0,
        Direction::Right => 0,
        Direction::Leftup => -1,
        Direction::Leftdown => 1,
        Direction::Rightup => -1,
        Direction::Rightdown => 1,
    }
}

pub open spec fn is_diagonal(d: Direction) -> bool {
    match d {
        Direction::Leftup => true,
        Direction::Leftdown => true,
        Direction::Rightup => true,
        Direction::Rightdown => true,
        _ => false,
    }
}

/// For every direction, the velocity a projectile is created with (which
/// `Bullet::new` gives for every origin) carries the sign pattern of the
/// direction's axes, with each orthogonal shot at exactly the speed constant
/// on one axis and each diagonal shot at the square-root constant on both.
pub proof fn lemma_bullet_velocity_signs(d: Direction)
    ensures
        ({
            let v = bullet_velocity(d);
            let mag: int = if is_diagonal(d) { BULLET_SPEED_DIAG as int } else { BULLET_SPEED as int };
            &&& v.x == mag * dir_x_sign(d)
            &&& v.y == mag * dir_y_sign(d)
        }),
{
}

} // verus!
