use vstd::prelude::*;

verus! {

/// Number of fixed-point steps in one game unit.
pub const SCALE: i64 = 1000;

/// Side length of one terrain tile: 16 game units.
pub const TILE_SIZE: i64 = 16_000;

/// Width of the playfield: 256 game units.
pub const GAME_W: i64 = 256_000;

/// Height of the playfield: 256 game units.
pub const GAME_H: i64 = 256_000;

/// Largest magnitude a coordinate may take. Far beyond the playfield; it
/// exists only so that per-tick displacements can never overflow `i64`.
pub const COORD_LIMIT: i64 = 72_057_594_037_927_936;

/// Largest magnitude a per-tick displacement may take: one tile.
pub const DELTA_LIMIT: i64 = 16_000;

pub open spec fn in_coord_range(c: int) -> bool {
    -COORD_LIMIT <= c <= COORD_LIMIT
}

/// A 2D position, velocity or size, in fixed-point steps.
#[derive(Clone, Copy, PartialEq, Eq, Structural, Debug)]
pub struct Vec2 {
    pub x: i64,
    pub y: i64,
}

impl Vec2 {
    pub open spec fn wf(self) -> bool {
        in_coord_range(self.x as int) && in_coord_range(self.y as int)
    }

    pub fn new(x: i64, y: i64) -> (v: Vec2)
        ensures
            v == (Vec2 { x, y }),
    {
        Vec2 { x, y }
    }
}

/// A coordinate pushed back into range, should an addition have left it.
pub open spec fn clamped(c: int) -> int {
    if c > COORD_LIMIT {
        COORD_LIMIT as int
    } else if c < -COORD_LIMIT {
        -(COORD_LIMIT as int)
    } else {
        c
    }
}

/// Move one coordinate by a bounded displacement.
pub fn step_coord(c: i64, d: i64) -> (r: i64)
    requires
        in_coord_range(c as int),
        -DELTA_LIMIT <= d <= DELTA_LIMIT,
    ensures
        r == clamped(c + d),
        in_coord_range(r as int),
{
    let n = c + d;
    if n > COORD_LIMIT {
        COORD_LIMIT
    } else if n < -COORD_LIMIT {
        -COORD_LIMIT
    } else {
        n
    }
}

/// The whole game unit nearest to a coordinate, halves rounded away from
/// zero; entity positions are compared at this resolution.
pub open spec fn round_units(c: int) -> int {
    if c >= 0 {
        (c + 500) / 1000
    } else {
        -(((-c) + 500) / 1000)
    }
}

pub fn round_units_of(c: i64) -> (r: i64)
    requires
        in_coord_range(c as int),
    ensures
        r == round_units(c as int),
{
    if c >= 0 {
        (((c as u64) + 500) / 1000) as i64
    } else {
        -(((((-c) as u64) + 500) / 1000) as i64)
    }
}

/// The column (or row) of the tile a coordinate falls in. Coordinates left
/// of the grid give column 0 and far-away ones saturate, as a conversion of
/// the quotient to a 32-bit tile index does.
pub open spec fn tile_of(c: int) -> u32 {
    if c < 0 {
        0u32
    } else if c / (TILE_SIZE as int) > u32::MAX {
        u32::MAX
    } else {
        (c / (TILE_SIZE as int)) as u32
    }
}

pub fn tile_of_coord(c: i64) -> (t: u32)
    requires
        -COORD_LIMIT - DELTA_LIMIT <= c <= COORD_LIMIT + DELTA_LIMIT,
    ensures
        t == tile_of(c as int),
{
    if c < 0 {
        0
    } else {
        let q = (c as u64) / 16_000;
        if q > u32::MAX as u64 {
            u32::MAX
        } else {
            q as u32
        }
    }
}

/// Whether two axis-aligned rectangles touch or overlap. The comparisons are
/// inclusive: rectangles sharing only an edge count as overlapping, as the
/// engine's rectangle test has it.
pub open spec fn rects_overlap(
    ax: int, ay: int, aw: int, ah: int,
    bx: int, by: int, bw: int, bh: int,
) -> bool {
    ax <= bx + bw && ax + aw >= bx && ay <= by + bh && ay + ah >= by
}

/// Whether a point lies in a rectangle, borders included.
pub open spec fn rect_contains(rx: int, ry: int, rw: int, rh: int, px: int, py: int) -> bool {
    px >= rx && px <= rx + rw && py >= ry && py <= ry + rh
}

} // verus!
