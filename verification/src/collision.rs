use vstd::prelude::*;
use crate::geom::{rects_overlap, tile_of, Vec2, COORD_LIMIT, SCALE, TILE_SIZE};
use crate::bullet::Direction;

verus! {

/// One cell of a stage's terrain grid, keyed by its tile column and row.
/// The full map holds exactly one entry per cell of the stage's main layer.
#[derive(Clone, Copy, PartialEq, Eq, Structural, Debug)]
pub enum CollisionType {
    Solid(u32, u32),
    Empty(u32, u32),
}

/// Whether a cell is solid and its full-size tile rectangle touches the
/// given rectangle.
pub open spec fn solid_overlaps(cell: CollisionType, x: int, y: int, w: int, h: int) -> bool {
    cell matches CollisionType::Solid(tx, ty) && rects_overlap(
        x, y, w, h,
        tx * (TILE_SIZE as int), ty * (TILE_SIZE as int),
        TILE_SIZE as int, TILE_SIZE as int,
    )
}

/// Whether a bounding box overlaps any solid cell of the map.
pub open spec fn box_hits_solid(cm: Seq<CollisionType>, x: int, y: int, w: int, h: int) -> bool {
    exists|i: int| 0 <= i < cm.len() && solid_overlaps(cm[i], x, y, w, h)
}

/// Scan the map for a solid tile overlapping the box; used identically by
/// player and enemy movement resolution.
pub fn scan_hits_solid(cm: &Vec<CollisionType>, x: i64, y: i64, w: i64, h: i64) -> (r: bool)
    requires
        -COORD_LIMIT - 1_000_000 <= x <= COORD_LIMIT + 1_000_000,
        -COORD_LIMIT - 1_000_000 <= y <= COORD_LIMIT + 1_000_000,
        -1_000_000 <= w <= 1_000_000,
        -1_000_000 <= h <= 1_000_000,
    ensures
        r == box_hits_solid(cm@, x as int, y as int, w as int, h as int),
{
    let n = cm.len();
    let mut i: usize = 0;
    while i < n
        invariant
            0 <= i <= n,
            n == cm@.len(),
            -COORD_LIMIT - 1_000_000 <= x <= COORD_LIMIT + 1_000_000,
            -COORD_LIMIT - 1_000_000 <= y <= COORD_LIMIT + 1_000_000,
            -1_000_000 <= w <= 1_000_000,
            -1_000_000 <= h <= 1_000_000,
            forall|j: int| 0 <= j < i ==> !solid_overlaps(cm@[j], x as int, y as int, w as int, h as int),
        decreases n - i,
    {
        match cm[i] {
            CollisionType::Solid(tx, ty) => {
                let rx = (tx as i64) * TILE_SIZE;
                let ry = (ty as i64) * TILE_SIZE;
                if x <= rx + TILE_SIZE && x + w >= rx && y <= ry + TILE_SIZE && y + h >= ry {
                    assert(solid_overlaps(cm@[i as int], x as int, y as int, w as int, h as int));
                    return true;
                }
            },
            CollisionType::Empty(_, _) => {},
        }
        i = i + 1;
    }
    false
}

/// The single-axis offset an entity moving in a cardinal direction covers in
/// one tick; diagonal directions give no offset.
pub open spec fn dir_offset(d: Direction, speed: int) -> (int, int) {
    match d {
        Direction::Up => (0int, -speed),
        Direction::Right => (speed, 0int),
        Direction::Left => (-speed, 0int),
        Direction::Down => (0int, speed),
        _ => (0int, 0int),
    }
}

/// Whether a cell is solid and is exactly the tile entered by moving one
/// tick in `d` from `coords`.
pub open spec fn cell_blocks_ahead(
    cell: CollisionType, coords: Vec2, d: Direction, speed: int,
) -> bool {
    cell matches CollisionType::Solid(tx, ty)
        && tile_of(coords.x + dir_offset(d, speed).0) == tx
        && tile_of(coords.y + dir_offset(d, speed).1) == ty
}

/// Whether the single tile an entity at `coords` would enter by moving one
/// tick in `d` is solid.
pub open spec fn lookahead_blocked(
    cm: Seq<CollisionType>, coords: Vec2, d: Direction, speed: int,
) -> bool {
    exists|i: int| 0 <= i < cm.len() && cell_blocks_ahead(#[trigger] cm[i], coords, d, speed)
}

/// Look one step ahead of `coords` in a cardinal direction and test the tile
/// entered against the solid set.
pub fn tile_ahead_blocked(
    coords: &Vec2, direction_from_coords: &Direction, tilemap: &Vec<CollisionType>, speed: i64,
) -> (r: bool)
    requires
        coords.wf(),
        0 <= speed <= crate::geom::DELTA_LIMIT,
    ensures
        r == lookahead_blocked(tilemap@, *coords, *direction_from_coords, speed as int),
{
    let (dx, dy): (i64, i64) = match direction_from_coords {
        Direction::Up => (0, -speed),
        Direction::Right => (speed, 0),
        Direction::Left => (-speed, 0),
        Direction::Down => (0, speed),
        _ => (0, 0),
    };
    assert((dx as int, dy as int) == dir_offset(*direction_from_coords, speed as int));
    let cx = crate::geom::tile_of_coord(coords.x + dx);
    let cy = crate::geom::tile_of_coord(coords.y + dy);
    let n = tilemap.len();
    let mut i: usize = 0;
    while i < n
        invariant
            0 <= i <= n,
            n == tilemap@.len(),
            cx == tile_of(coords.x + dir_offset(*direction_from_coords, speed as int).0),
            cy == tile_of(coords.y + dir_offset(*direction_from_coords, speed as int).1),
            forall|j: int| 0 <= j < i ==> !cell_blocks_ahead(
                #[trigger] tilemap@[j], *coords, *direction_from_coords, speed as int),
        decreases n - i,
    {
        match tilemap[i] {
            CollisionType::Solid(tx, ty) => {
                if cx == tx && cy == ty {
                    assert(cell_blocks_ahead(tilemap@[i as int], *coords, *direction_from_coords, speed as int));
                    return true;
                }
            },
            CollisionType::Empty(_, _) => {},
        }
        i = i + 1;
    }
    false
}

/// Rebuild the per-stage collision map from a scan of the stage's main
/// layer: one entry per tile, solid where the tile has content.
pub fn build_collision_map(tiles: &Vec<(u32, u32, bool)>) -> (cm: Vec<CollisionType>)
    ensures
        cm@.len() == tiles@.len(),
        forall|i: int| 0 <= i < tiles@.len() ==> cm@[i] == (if tiles@[i].2 {
            CollisionType::Solid(tiles@[i].0, tiles@[i].1)
        } else {
            CollisionType::Empty(tiles@[i].0, tiles@[i].1)
        }),
{
    let n = tiles.len();
    let mut cm: Vec<CollisionType> = Vec::new();
    let mut i: usize = 0;
    while i < n
        invariant
            0 <= i <= n,
            n == tiles@.len(),
            cm@.len() == i,
            forall|j: int| 0 <= j < i ==> cm@[j] == (if tiles@[j].2 {
                CollisionType::Solid(tiles@[j].0, tiles@[j].1)
            } else {
                CollisionType::Empty(tiles@[j].0, tiles@[j].1)
            }),
        decreases n - i,
    {
        let (tx, ty, solid) = tiles[i];
        if solid {
            cm.push(CollisionType::Solid(tx, ty));
        } else {
            cm.push(CollisionType::Empty(tx, ty));
        }
        i = i + 1;
    }
    cm
}

/// The stage-local position an enemy spawned on a tile takes: the tile's
/// top-left corner nudged one unit right and down.
pub open spec fn spawn_of(tx: u32, ty: u32) -> Vec2 {
    Vec2 { x: (tx * (TILE_SIZE as int) + (SCALE as int)) as i64, y: (ty * (TILE_SIZE as int) + (SCALE as int)) as i64 }
}

/// Spawn points of a stage, in layer order, taken from the tiles of the
/// spawnable layer that have content.
pub open spec fn spawnpoints_of(tiles: Seq<(u32, u32, bool)>) -> Seq<Vec2>
    decreases tiles.len(),
{
    if tiles.len() == 0 {
        Seq::empty()
    } else {
        let rest = spawnpoints_of(tiles.drop_last());
        let last = tiles[tiles.len() - 1];
        if last.2 {
            rest.push(spawn_of(last.0, last.1))
        } else {
            rest
        }
    }
}

/// Rebuild the enemy spawn-point set from a scan of the stage's spawnable
/// layer.
pub fn build_spawnpoints(tiles: &Vec<(u32, u32, bool)>) -> (sp: Vec<Vec2>)
    ensures
        sp@ == spawnpoints_of(tiles@),
        forall|j: int| 0 <= j < sp@.len() ==> (#[trigger] sp@[j]).wf(),
{
    let n = tiles.len();
    let mut sp: Vec<Vec2> = Vec::new();
    let mut i: usize = 0;
    while i < n
        invariant
            0 <= i <= n,
            n == tiles@.len(),
            sp@ == spawnpoints_of(tiles@.take(i as int)),
            forall|j: int| 0 <= j < sp@.len() ==> (#[trigger] sp@[j]).wf(),
        decreases n - i,
    {
        let (tx, ty, solid) = tiles[i];
        proof {
            assert(tiles@.take(i + 1).drop_last() =~= tiles@.take(i as int));
            assert(tiles@.take(i + 1)[i as int] == tiles@[i as int]);
        }
        if solid {
            let p = Vec2 { x: (tx as i64) * TILE_SIZE + SCALE, y: (ty as i64) * TILE_SIZE + SCALE };
            assert(p == spawn_of(tx, ty));
            assert(tx * (TILE_SIZE as int) + (SCALE as int) <= u32::MAX * (TILE_SIZE as int) + (SCALE as int)) by (nonlinear_arith)
                requires tx <= u32::MAX;
            assert(ty * (TILE_SIZE as int) + (SCALE as int) <= u32::MAX * (TILE_SIZE as int) + (SCALE as int)) by (nonlinear_arith)
                requires ty <= u32::MAX;
            assert(p.wf());
            sp.push(p);
        }
        i = i + 1;
    }
    proof {
        assert(tiles@.take(n as int) =~= tiles@);
    }
    sp
}

/// Every spawn point holds coordinates in range.
pub open spec fn spawnpoints_wf(sp: Seq<Vec2>) -> bool {
    forall|j: int| 0 <= j < sp.len() ==> (#[trigger] sp[j]).wf()
}

} // verus!
