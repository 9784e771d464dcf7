//! Arena geometry: static wall rectangles built once at session start.
//!
//! The map file supplies integer wall records `[x0, y0, x1, y1, kind]`.
//! The builder centres all walls on the bounding box of the set (the box
//! centre maps to the world origin) and converts to fixed-point
//! centre/half-extent rectangles.  The walls never change during
//! simulation.

use vstd::prelude::*;
use crate::fx::{sat, Vec2};
use crate::state::{wf_walls, Wall};

verus! {

/// Fixed-point steps per half world unit, used to scale `(a + b) / 2`
/// exactly without rounding.
pub const HALF_SCALE: i64 = 30720;

/// One row of the map file's wall table: two corners and a render kind,
/// in whole world units.
#[derive(Clone, Copy, PartialEq, Eq, Structural, Debug)]
pub struct WallRecord {
    pub x0: i32,
    pub y0: i32,
    pub x1: i32,
    pub y1: i32,
    pub kind: i32,
}

/// Why the arena could not be built.  A missing or malformed map file is
/// a startup-fatal configuration error, not a simulation error.
#[derive(Clone, Copy, PartialEq, Eq, Structural, Debug)]
pub enum ArenaError {
    /// The map file holds no walls, so there is no bounding box to
    /// normalize against.
    NoWalls,
}

/// The static collision geometry of a session.
#[derive(Clone, PartialEq, Eq, Debug)]
pub struct Arena {
    pub walls: Vec<Wall>,
}

/// Smallest `x0` among the first `n` records.
pub open spec fn spec_min_x(rs: Seq<WallRecord>, n: int) -> int
    decreases n,
{
    if n <= 1 {
        rs[0].x0 as int
    } else {
        vstd::math::min(spec_min_x(rs, n - 1), rs[n - 1].x0 as int)
    }
}

/// Largest `x1` among the first `n` records.
pub open spec fn spec_max_x(rs: Seq<WallRecord>, n: int) -> int
    decreases n,
{
    if n <= 1 {
        rs[0].x1 as int
    } else {
        vstd::math::max(spec_max_x(rs, n - 1), rs[n - 1].x1 as int)
    }
}

/// Smallest `y0` among the first `n` records.
pub open spec fn spec_min_y(rs: Seq<WallRecord>, n: int) -> int
    decreases n,
{
    if n <= 1 {
        rs[0].y0 as int
    } else {
        vstd::math::min(spec_min_y(rs, n - 1), rs[n - 1].y0 as int)
    }
}

/// Largest `y1` among the first `n` records.
pub open spec fn spec_max_y(rs: Seq<WallRecord>, n: int) -> int
    decreases n,
{
    if n <= 1 {
        rs[0].y1 as int
    } else {
        vstd::math::max(spec_max_y(rs, n - 1), rs[n - 1].y1 as int)
    }
}

/// The normalization offset: the corner sum of the bounding box of all
/// walls.  Subtracting it from a wall's own corner sum, before halving,
/// centres the whole set on the box: a wall at the box centre lands at
/// the world origin.
pub open spec fn spec_origin(rs: Seq<WallRecord>) -> (int, int) {
    (spec_min_x(rs, rs.len() as int) + spec_max_x(rs, rs.len() as int), spec_min_y(
        rs,
        rs.len() as int,
    ) + spec_max_y(rs, rs.len() as int))
}

/// The wall built from one record: centre `(corner sum - origin) / 2`,
/// half-extents half the side lengths, all in fixed-point steps.
pub open spec fn spec_wall_of_record(r: WallRecord, ox: int, oy: int) -> Wall {
    Wall {
        center: Vec2 {
            x: sat((r.x0 + r.x1 - ox) * HALF_SCALE) as i64,
            y: sat((r.y0 + r.y1 - oy) * HALF_SCALE) as i64,
        },
        half: Vec2 {
            x: sat((r.x1 - r.x0) * HALF_SCALE) as i64,
            y: sat((r.y1 - r.y0) * HALF_SCALE) as i64,
        },
        kind: r.kind,
    }
}

/// The whole arena the records describe.
pub open spec fn spec_arena_walls(rs: Seq<WallRecord>) -> Seq<Wall> {
    Seq::new(
        rs.len(),
        |i: int| spec_wall_of_record(rs[i], spec_origin(rs).0, spec_origin(rs).1),
    )
}

/// Scale a small difference of world units to fixed-point half steps and
/// saturate.
fn half_scaled(d: i64) -> (r: i64)
    requires
        -12884901888 <= d <= 12884901888,
    ensures
        r == sat(d * HALF_SCALE),
{
    proof {
        crate::fx::lemma_mul_bounds(d as int, HALF_SCALE as int, 12884901888);
    }
    crate::fx::clamp_i128((d as i128) * (HALF_SCALE as i128))
}

/// Build the arena from the map file's wall records.  Fails exactly when
/// the record table is empty; otherwise every record becomes the wall
/// `spec_wall_of_record` describes, in order.
pub fn build_arena(records: &Vec<WallRecord>) -> (r: Result<Arena, ArenaError>)
    ensures
        records@.len() == 0 <==> r is Err,
        r is Err ==> r->Err_0 == ArenaError::NoWalls,
        r is Ok ==> r->Ok_0.walls@ == spec_arena_walls(records@),
        r is Ok ==> wf_walls(r->Ok_0.walls@),
{
    if records.len() == 0 {
        return Err(ArenaError::NoWalls);
    }
    let n = records.len();
    let mut minx: i32 = records[0].x0;
    let mut maxx: i32 = records[0].x1;
    let mut miny: i32 = records[0].y0;
    let mut maxy: i32 = records[0].y1;
    let mut i: usize = 1;
    while i < n
        invariant
            1 <= i <= n,
            n == records@.len(),
            minx == spec_min_x(records@, i as int),
            maxx == spec_max_x(records@, i as int),
            miny == spec_min_y(records@, i as int),
            maxy == spec_max_y(records@, i as int),
        decreases n - i,
    {
        let r = records[i];
        if r.x0 < minx {
            minx = r.x0;
        }
        if r.x1 > maxx {
            maxx = r.x1;
        }
        if r.y0 < miny {
            miny = r.y0;
        }
        if r.y1 > maxy {
            maxy = r.y1;
        }
        i = i + 1;
    }
    let ox: i64 = minx as i64 + maxx as i64;
    let oy: i64 = miny as i64 + maxy as i64;
    let mut walls: Vec<Wall> = Vec::new();
    let mut j: usize = 0;
    while j < n
        invariant
            j <= n,
            n == records@.len(),
            ox == spec_origin(records@).0,
            oy == spec_origin(records@).1,
            -4294967296 <= ox <= 4294967296,
            -4294967296 <= oy <= 4294967296,
            walls@.len() == j,
            forall|k: int|
                0 <= k < j ==> walls@[k] == spec_wall_of_record(records@[k], ox as int, oy as int),
            wf_walls(walls@),
        decreases n - j,
    {
        let r = records[j];
        let cx = half_scaled(r.x0 as i64 + r.x1 as i64 - ox);
        let cy = half_scaled(r.y0 as i64 + r.y1 as i64 - oy);
        let hx = half_scaled(r.x1 as i64 - r.x0 as i64);
        let hy = half_scaled(r.y1 as i64 - r.y0 as i64);
        walls.push(
            Wall { center: Vec2 { x: cx, y: cy }, half: Vec2 { x: hx, y: hy }, kind: r.kind },
        );
        j = j + 1;
    }
    proof {
        assert(walls@ =~= spec_arena_walls(records@));
    }
    Ok(Arena { walls })
}

} // verus!
