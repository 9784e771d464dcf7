//! Collision engine: pure geometric routines on fixed-point vectors.
//!
//! Every predicate here is exact integer arithmetic, so the same call
//! gives the same answer on every peer.  The routines answer "did this
//! segment or circle cross this shape this tick" and produce corrected
//! position/velocity pairs; they keep no state and do no I/O, so they are
//! safe to call repeatedly during resimulation.

use vstd::prelude::*;
use crate::fx::{
    fits, lemma_mul_bounds, normalize, sat, spec_normalize, spec_v2_add, spec_v2_dot,
    spec_v2_scale, spec_v2_sub, v2_add, v2_dot, v2_fits, v2_scale, v2_sub, Vec2, FX_MAX, SCALE,
};

verus! {

/// Restitution factor applied to the offending velocity axis on a wall
/// face hit: the component is inverted and damped to a tenth, so a player
/// can still slide and bounce along the face.
pub const FACE_RESTITUTION: i64 = -6144;

/// Rescale factor, slightly above one: a corner-deflected circle is
/// pushed out to about the collision radius, a little beyond it so an
/// immediate re-collision is unlikely.
pub const CORNER_PUSH: i64 = 61471;

/// Components no larger than twice the stored band: segment endpoints may
/// be a position plus a velocity, each saturated separately.
pub open spec fn v2_wide(v: Vec2) -> bool {
    -2 * (FX_MAX as int) <= v.x <= 2 * (FX_MAX as int) && -2 * (FX_MAX as int) <= v.y <= 2 * (
    FX_MAX as int)
}

/// Counter-clockwise orientation of the triangle `a`, `b`, `c`, by the
/// sign of the cross product.  The inequality is strict: collinear points
/// do not count, which makes exactly tangential touches "no crossing".
pub open spec fn spec_ccw(a: Vec2, b: Vec2, c: Vec2) -> bool {
    (c.y - a.y) * (b.x - a.x) > (b.y - a.y) * (c.x - a.x)
}

pub fn ccw(a: Vec2, b: Vec2, c: Vec2) -> (r: bool)
    requires
        v2_wide(a),
        v2_wide(b),
        v2_wide(c),
    ensures
        r == spec_ccw(a, b, c),
{
    proof {
        lemma_mul_bounds(c.y - a.y, b.x - a.x, 2147483648);
        lemma_mul_bounds(b.y - a.y, c.x - a.x, 2147483648);
    }
    let u: i64 = (c.y - a.y) * (b.x - a.x);
    let v: i64 = (b.y - a.y) * (c.x - a.x);
    u > v
}

/// Proper crossing of segments `ab` and `cd`: the endpoints of each lie
/// on opposite sides of the other.
pub open spec fn spec_intersect_segment_segment(a: Vec2, b: Vec2, c: Vec2, d: Vec2) -> bool {
    spec_ccw(a, c, d) != spec_ccw(b, c, d) && spec_ccw(a, b, c) != spec_ccw(a, b, d)
}

pub fn intersect_segment_segment(a: Vec2, b: Vec2, c: Vec2, d: Vec2) -> (r: bool)
    requires
        v2_wide(a),
        v2_wide(b),
        v2_wide(c),
        v2_wide(d),
    ensures
        r == spec_intersect_segment_segment(a, b, c, d),
{
    (ccw(a, c, d) != ccw(b, c, d)) && (ccw(a, b, c) != ccw(a, b, d))
}

/// Does the segment from `e` to `e + l` meet the open disc of radius `r`
/// around `c`?
///
/// True when either endpoint is strictly inside the disc, or the
/// closest-approach quadratic `qa t^2 + qb t + qz` (squared distance to
/// the centre minus `r^2` at parameter `t` along the segment) has a root
/// with `t` in `[0, 1]` and positive discriminant.  Root membership is
/// decided exactly in integers: the root formulas are compared against
/// the interval ends with the square root eliminated against the
/// positive denominator `2 qa`.
pub open spec fn spec_intersect_segment_circle(e: Vec2, l: Vec2, c: Vec2, r: i64) -> bool {
    let gx = e.x + l.x - c.x;
    let gy = e.y + l.y - c.y;
    let fx = e.x - c.x;
    let fy = e.y - c.y;
    if gx * gx + gy * gy < r * r {
        true
    } else if fx * fx + fy * fy < r * r {
        true
    } else {
        let qa = l.x * l.x + l.y * l.y;
        let qb = 2 * (fx * l.x + fy * l.y);
        let qz = fx * fx + fy * fy - r * r;
        let disc = qb * qb - 4 * (qa * qz);
        let lower_root_in = qb <= 0 && qz >= 0 && (qb + 2 * qa >= 0 || qa + qb + qz <= 0);
        let upper_root_in = (qb <= 0 || qz <= 0) && qb + 2 * qa >= 0 && qa + qb + qz >= 0;
        disc > 0 && qa > 0 && (lower_root_in || upper_root_in)
    }
}

pub fn intersect_segment_circle(e: Vec2, l: Vec2, c: Vec2, r: i64) -> (res: bool)
    requires
        v2_fits(e),
        v2_fits(l),
        v2_fits(c),
        fits(r as int),
    ensures
        res == spec_intersect_segment_circle(e, l, c, r),
{
    let gx: i64 = e.x + l.x - c.x;
    let gy: i64 = e.y + l.y - c.y;
    let fx: i64 = e.x - c.x;
    let fy: i64 = e.y - c.y;
    proof {
        lemma_mul_bounds(gx as int, gx as int, 1610612736);
        lemma_mul_bounds(gy as int, gy as int, 1610612736);
        lemma_mul_bounds(fx as int, fx as int, 1073741824);
        lemma_mul_bounds(fy as int, fy as int, 1073741824);
        lemma_mul_bounds(r as int, r as int, 536870912);
        lemma_mul_bounds(l.x as int, l.x as int, 536870912);
        lemma_mul_bounds(l.y as int, l.y as int, 536870912);
        lemma_mul_bounds(fx as int, l.x as int, 1073741824);
        lemma_mul_bounds(fy as int, l.y as int, 1073741824);
    }
    let rr: i128 = (r as i128) * (r as i128);
    if (gx as i128) * (gx as i128) + (gy as i128) * (gy as i128) < rr {
        return true;
    }
    let ff: i128 = (fx as i128) * (fx as i128) + (fy as i128) * (fy as i128);
    if ff < rr {
        return true;
    }
    let qa: i128 = (l.x as i128) * (l.x as i128) + (l.y as i128) * (l.y as i128);
    let qb: i128 = 2 * ((fx as i128) * (l.x as i128) + (fy as i128) * (l.y as i128));
    let qz: i128 = ff - rr;
    proof {
        lemma_mul_bounds(qb as int, qb as int, 4611686018427387904);
        lemma_mul_bounds(qa as int, qz as int, 4611686018427387904);
    }
    let disc: i128 = qb * qb - 4 * (qa * qz);
    let lower_root_in: bool = qb <= 0 && qz >= 0 && (qb + 2 * qa >= 0 || qa + qb + qz <= 0);
    let upper_root_in: bool = (qb <= 0 || qz <= 0) && qb + 2 * qa >= 0 && qa + qb + qz >= 0;
    disc > 0 && qa > 0 && (lower_root_in || upper_root_in)
}

/// Deflection of a moving circle off a point obstacle (a wall corner).
///
/// On a hit, the circle is placed on the ray from the corner through its
/// attempted destination, about one collision radius out, and its
/// velocity is reflected about the corner-to-destination normal:
/// `v - 2 (v . n) n` with `n` the unit outward offset, in fixed point.
/// A move that ends dead on the corner has no normal; the circle is left
/// on the corner with its velocity dropped.
pub open spec fn spec_collision_player_circle(pos: Vec2, vel: Vec2, center: Vec2, rad: i64) -> (
    Vec2,
    Vec2,
) {
    if spec_intersect_segment_circle(pos, vel, center, rad) {
        let out = spec_v2_sub(spec_v2_add(pos, vel), center);
        if out.x == 0 && out.y == 0 {
            (center, Vec2 { x: 0, y: 0 })
        } else {
            let norm = spec_normalize(out);
            let along = sat(2 * spec_v2_dot(vel, norm));
            let newpos = spec_v2_add(spec_v2_scale(spec_v2_scale(norm, rad as int), CORNER_PUSH as int), center);
            let newvel = spec_v2_sub(vel, spec_v2_scale(norm, along));
            (newpos, newvel)
        }
    } else {
        (pos, vel)
    }
}

pub fn collision_player_circle(pos: Vec2, vel: Vec2, center: Vec2, rad: i64) -> (r: (Vec2, Vec2))
    requires
        v2_fits(pos),
        v2_fits(vel),
        v2_fits(center),
        0 <= rad <= FX_MAX,
    ensures
        r == spec_collision_player_circle(pos, vel, center, rad),
        v2_fits(r.0),
        v2_fits(r.1),
{
    if intersect_segment_circle(pos, vel, center, rad) {
        let out = v2_sub(v2_add(pos, vel), center);
        if out.x == 0 && out.y == 0 {
            (center, Vec2 { x: 0, y: 0 })
        } else {
            let norm = normalize(out);
            let d: i64 = v2_dot(vel, norm);
            let along: i64 = crate::fx::fx_add(d, d);
            let newpos = v2_add(v2_scale(v2_scale(norm, rad), CORNER_PUSH), center);
            let newvel = v2_sub(vel, v2_scale(norm, along));
            (newpos, newvel)
        }
    } else {
        (pos, vel)
    }
}

/// Is the attempted destination strictly within `rad` of `corner`?
pub open spec fn spec_near_corner(pos: Vec2, vel: Vec2, corner: Vec2, rad: i64) -> bool {
    let dx = corner.x - pos.x - vel.x;
    let dy = corner.y - pos.y - vel.y;
    rad * rad > dx * dx + dy * dy
}

fn near_corner(pos: Vec2, vel: Vec2, corner: Vec2, rad: i64) -> (r: bool)
    requires
        v2_fits(pos),
        v2_fits(vel),
        v2_fits(corner),
        0 <= rad <= FX_MAX,
    ensures
        r == spec_near_corner(pos, vel, corner, rad),
{
    let dx: i64 = corner.x - pos.x - vel.x;
    let dy: i64 = corner.y - pos.y - vel.y;
    proof {
        lemma_mul_bounds(dx as int, dx as int, 1610612736);
        lemma_mul_bounds(dy as int, dy as int, 1610612736);
        lemma_mul_bounds(rad as int, rad as int, 536870912);
    }
    (rad as i128) * (rad as i128) > (dx as i128) * (dx as i128) + (dy as i128) * (dy as i128)
}

/// Inverted, damped component for a face hit.
pub open spec fn spec_damp(v: i64) -> int {
    sat(v * FACE_RESTITUTION / (SCALE as int))
}

/// Collision of a moving circle (at `pos`, radius `rad`, moving by `vel`
/// this tick) against the axis-aligned box with corners `lo` and `hi`.
///
/// The four face slabs are checked first, in the fixed order bottom, top,
/// right, left: the circle must straddle the face band and be crossing
/// the face this tick; it is then clamped to exactly `rad` from the face
/// and the perpendicular velocity component is inverted and damped.  If
/// no face matches, the four corner regions are checked and deflect like
/// point obstacles.  The first matching rule wins; order is part of the
/// behaviour.
pub open spec fn spec_collision_player_wall(pos: Vec2, vel: Vec2, rad: i64, lo: Vec2, hi: Vec2) -> (
    bool,
    (Vec2, Vec2),
) {
    if lo.x < pos.x && pos.x < hi.x && pos.y - rad < lo.y && pos.y + rad + vel.y > lo.y {
        (
            true,
            (
                Vec2 { x: pos.x, y: sat(lo.y - rad) as i64 },
                Vec2 { x: vel.x, y: spec_damp(vel.y) as i64 },
            ),
        )
    } else if lo.x < pos.x && pos.x < hi.x && pos.y + rad > hi.y && pos.y - rad + vel.y < hi.y {
        (
            true,
            (
                Vec2 { x: pos.x, y: sat(hi.y + rad) as i64 },
                Vec2 { x: vel.x, y: spec_damp(vel.y) as i64 },
            ),
        )
    } else if lo.y < pos.y && pos.y < hi.y && pos.x + rad > hi.x && pos.x - rad + vel.x < hi.x {
        (
            true,
            (
                Vec2 { x: sat(hi.x + rad) as i64, y: pos.y },
                Vec2 { x: spec_damp(vel.x) as i64, y: vel.y },
            ),
        )
    } else if lo.y < pos.y && pos.y < hi.y && pos.x - rad < lo.x && pos.x + rad + vel.x > lo.x {
        (
            true,
            (
                Vec2 { x: sat(lo.x - rad) as i64, y: pos.y },
                Vec2 { x: spec_damp(vel.x) as i64, y: vel.y },
            ),
        )
    } else if pos.x < lo.x && pos.y < lo.y && spec_near_corner(pos, vel, lo, rad) {
        (true, spec_collision_player_circle(pos, vel, lo, rad))
    } else if pos.x > hi.x && pos.y < lo.y && spec_near_corner(
        pos,
        vel,
        Vec2 { x: hi.x, y: lo.y },
        rad,
    ) {
        (true, spec_collision_player_circle(pos, vel, Vec2 { x: hi.x, y: lo.y }, rad))
    } else if pos.x < lo.x && pos.y > hi.y && spec_near_corner(
        pos,
        vel,
        Vec2 { x: lo.x, y: hi.y },
        rad,
    ) {
        (true, spec_collision_player_circle(pos, vel, Vec2 { x: lo.x, y: hi.y }, rad))
    } else if pos.x > hi.x && pos.y > hi.y && spec_near_corner(pos, vel, hi, rad) {
        (true, spec_collision_player_circle(pos, vel, hi, rad))
    } else {
        (false, (pos, vel))
    }
}

pub fn collision_player_wall(pos: Vec2, vel: Vec2, rad: i64, lo: Vec2, hi: Vec2) -> (r: (
    bool,
    (Vec2, Vec2),
))
    requires
        v2_fits(pos),
        v2_fits(vel),
        0 <= rad <= FX_MAX,
        v2_fits(lo),
        v2_fits(hi),
    ensures
        r == spec_collision_player_wall(pos, vel, rad, lo, hi),
        v2_fits(r.1.0),
        v2_fits(r.1.1),
{
    if lo.x < pos.x && pos.x < hi.x && pos.y - rad < lo.y && pos.y + rad + vel.y > lo.y {
        let py = crate::fx::fx_sub(lo.y, rad);
        let dy = crate::fx::fx_mul(vel.y, FACE_RESTITUTION);
        (true, (Vec2 { x: pos.x, y: py }, Vec2 { x: vel.x, y: dy }))
    } else if lo.x < pos.x && pos.x < hi.x && pos.y + rad > hi.y && pos.y - rad + vel.y < hi.y {
        let py = crate::fx::fx_add(hi.y, rad);
        let dy = crate::fx::fx_mul(vel.y, FACE_RESTITUTION);
        (true, (Vec2 { x: pos.x, y: py }, Vec2 { x: vel.x, y: dy }))
    } else if lo.y < pos.y && pos.y < hi.y && pos.x + rad > hi.x && pos.x - rad + vel.x < hi.x {
        let px = crate::fx::fx_add(hi.x, rad);
        let dx = crate::fx::fx_mul(vel.x, FACE_RESTITUTION);
        (true, (Vec2 { x: px, y: pos.y }, Vec2 { x: dx, y: vel.y }))
    } else if lo.y < pos.y && pos.y < hi.y && pos.x - rad < lo.x && pos.x + rad + vel.x > lo.x {
        let px = crate::fx::fx_sub(lo.x, rad);
        let dx = crate::fx::fx_mul(vel.x, FACE_RESTITUTION);
        (true, (Vec2 { x: px, y: pos.y }, Vec2 { x: dx, y: vel.y }))
    } else if pos.x < lo.x && pos.y < lo.y && near_corner(pos, vel, lo, rad) {
        (true, collision_player_circle(pos, vel, lo, rad))
    } else if pos.x > hi.x && pos.y < lo.y && near_corner(pos, vel, Vec2 { x: hi.x, y: lo.y }, rad) {
        (true, collision_player_circle(pos, vel, Vec2 { x: hi.x, y: lo.y }, rad))
    } else if pos.x < lo.x && pos.y > hi.y && near_corner(pos, vel, Vec2 { x: lo.x, y: hi.y }, rad) {
        (true, collision_player_circle(pos, vel, Vec2 { x: lo.x, y: hi.y }, rad))
    } else if pos.x > hi.x && pos.y > hi.y && near_corner(pos, vel, hi, rad) {
        (true, collision_player_circle(pos, vel, hi, rad))
    } else {
        (false, (pos, vel))
    }
}

/// Wall containment, bottom face: a circle straddling the face band whose
/// move would cross the wall's bottom face is clamped to exactly `rad`
/// below the face (never penetrating); the perpendicular velocity
/// component is inverted and damped, the parallel one kept.
pub proof fn lemma_wall_containment_bottom(pos: Vec2, vel: Vec2, rad: i64, lo: Vec2, hi: Vec2)
    requires
        lo.x < pos.x && pos.x < hi.x,
        pos.y - rad < lo.y,
        pos.y + rad + vel.y > lo.y,
        fits(lo.y - rad),
    ensures
        spec_collision_player_wall(pos, vel, rad, lo, hi).1.0.y == lo.y - rad,
        spec_collision_player_wall(pos, vel, rad, lo, hi).1.0.x == pos.x,
        spec_collision_player_wall(pos, vel, rad, lo, hi).1.1.y == spec_damp(vel.y),
        spec_collision_player_wall(pos, vel, rad, lo, hi).1.1.x == vel.x,
{
}

/// Wall containment, top face.
pub proof fn lemma_wall_containment_top(pos: Vec2, vel: Vec2, rad: i64, lo: Vec2, hi: Vec2)
    requires
        lo.x < pos.x && pos.x < hi.x,
        !(pos.y - rad < lo.y && pos.y + rad + vel.y > lo.y),
        pos.y + rad > hi.y,
        pos.y - rad + vel.y < hi.y,
        fits(hi.y + rad),
    ensures
        spec_collision_player_wall(pos, vel, rad, lo, hi).1.0.y == hi.y + rad,
        spec_collision_player_wall(pos, vel, rad, lo, hi).1.0.x == pos.x,
        spec_collision_player_wall(pos, vel, rad, lo, hi).1.1.y == spec_damp(vel.y),
        spec_collision_player_wall(pos, vel, rad, lo, hi).1.1.x == vel.x,
{
}

/// Wall containment, right face.
pub proof fn lemma_wall_containment_right(pos: Vec2, vel: Vec2, rad: i64, lo: Vec2, hi: Vec2)
    requires
        lo.y < pos.y && pos.y < hi.y,
        !(lo.x < pos.x && pos.x < hi.x),
        pos.x + rad > hi.x,
        pos.x - rad + vel.x < hi.x,
        fits(hi.x + rad),
    ensures
        spec_collision_player_wall(pos, vel, rad, lo, hi).1.0.x == hi.x + rad,
        spec_collision_player_wall(pos, vel, rad, lo, hi).1.0.y == pos.y,
        spec_collision_player_wall(pos, vel, rad, lo, hi).1.1.x == spec_damp(vel.x),
        spec_collision_player_wall(pos, vel, rad, lo, hi).1.1.y == vel.y,
{
}

/// Wall containment, left face.
pub proof fn lemma_wall_containment_left(pos: Vec2, vel: Vec2, rad: i64, lo: Vec2, hi: Vec2)
    requires
        lo.y < pos.y && pos.y < hi.y,
        !(lo.x < pos.x && pos.x < hi.x),
        !(pos.x + rad > hi.x && pos.x - rad + vel.x < hi.x),
        pos.x - rad < lo.x,
        pos.x + rad + vel.x > lo.x,
        fits(lo.x - rad),
    ensures
        spec_collision_player_wall(pos, vel, rad, lo, hi).1.0.x == lo.x - rad,
        spec_collision_player_wall(pos, vel, rad, lo, hi).1.0.y == pos.y,
        spec_collision_player_wall(pos, vel, rad, lo, hi).1.1.x == spec_damp(vel.x),
        spec_collision_player_wall(pos, vel, rad, lo, hi).1.1.y == vel.y,
{
}

} // verus!
