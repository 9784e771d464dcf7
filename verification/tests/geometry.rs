//! Collision engine: orientation, segment and circle-vs-box behaviour.

use tanks_core::fx::Vec2;
use tanks_core::geom::{
    ccw, collision_player_circle, collision_player_wall, intersect_segment_circle,
    intersect_segment_segment,
};

fn v(x: i64, y: i64) -> Vec2 {
    Vec2 { x, y }
}

#[test]
fn ccw_orientation() {
    assert!(ccw(v(0, 0), v(1, 0), v(0, 1)));
    assert!(!ccw(v(0, 0), v(0, 1), v(1, 0)));
    // collinear points are not counter-clockwise (strict inequality)
    assert!(!ccw(v(0, 0), v(1, 0), v(2, 0)));
}

#[test]
fn segments_crossing() {
    assert!(intersect_segment_segment(v(0, -10), v(0, 10), v(-10, 0), v(10, 0)));
    // disjoint parallel segments
    assert!(!intersect_segment_segment(v(0, 0), v(10, 0), v(0, 5), v(10, 5)));
    // collinear overlap is not detected (strict orientation test)
    assert!(!intersect_segment_segment(v(0, 0), v(10, 0), v(2, 0), v(8, 0)));
    // a perpendicular segment ending exactly on the other still flips
    // orientation on one side and counts as a crossing
    assert!(intersect_segment_segment(v(0, 0), v(10, 0), v(5, 0), v(5, 10)));
}

#[test]
fn segment_circle_pass_through() {
    // a path straight through the circle
    assert!(intersect_segment_circle(v(0, 0), v(10, 0), v(5, 0), 2));
    // far away
    assert!(!intersect_segment_circle(v(0, 0), v(10, 0), v(5, 50), 2));
    // stops short of the circle
    assert!(!intersect_segment_circle(v(0, 0), v(1, 0), v(5, 0), 2));
}

#[test]
fn segment_circle_endpoint_inside() {
    // start point already inside the radius
    assert!(intersect_segment_circle(v(4, 0), v(10, 0), v(5, 0), 2));
    // destination lands inside
    assert!(intersect_segment_circle(v(0, 0), v(4, 0), v(5, 0), 2));
}

#[test]
fn segment_circle_tangent_is_no_hit() {
    // the line y = 2 exactly grazes a circle of radius 2 at the origin:
    // the discriminant is zero and the strict policy reports no hit
    assert!(!intersect_segment_circle(v(-10, 2), v(20, 0), v(0, 0), 2));
}

#[test]
fn wall_face_clamps_to_radius() {
    // player below a wall, moving up into its bottom face
    let pos = v(0, -700000);
    let vel = v(0, 200000);
    let rad = 614400;
    let lo = v(-614400, -307200);
    let hi = v(614400, 307200);
    let (hit, (npos, nvel)) = collision_player_wall(pos, vel, rad, lo, hi);
    assert!(hit);
    // clamped to exactly one radius below the face, x untouched
    assert_eq!(npos, v(0, -307200 - 614400));
    // the offending axis is inverted and damped to a tenth; the other kept
    assert_eq!(nvel, v(0, -20000));
}

#[test]
fn wall_left_face_clamp() {
    // player left of a wall moving right into its left face
    let pos = v(368640, 0);
    let vel = v(614400, 0);
    let rad = 614400;
    let lo = v(1228800, -614400);
    let hi = v(2457600, 614400);
    let (hit, (npos, nvel)) = collision_player_wall(pos, vel, rad, lo, hi);
    assert!(hit);
    assert_eq!(npos, v(1228800 - 614400, 0));
    assert_eq!(nvel, v(-61440, 0));
}

#[test]
fn wall_miss_returns_input() {
    let pos = v(-5000000, -5000000);
    let vel = v(100, 100);
    let (hit, (npos, nvel)) = collision_player_wall(
        pos,
        vel,
        614400,
        v(-614400, -307200),
        v(614400, 307200),
    );
    assert!(!hit);
    assert_eq!(npos, pos);
    assert_eq!(nvel, vel);
}

#[test]
fn corner_dead_center_drops_velocity() {
    // degenerate policy: a move ending exactly on the corner has no
    // deflection normal, so the circle stays there with no velocity
    let pos = v(-300000, -300000);
    let vel = v(300000, 300000);
    let (npos, nvel) = collision_player_circle(pos, vel, v(0, 0), 614400);
    assert_eq!(nvel, v(0, 0));
    assert_eq!(npos, v(0, 0));
}

#[test]
fn corner_deflection_reflects_velocity() {
    // moving diagonally into a point obstacle: the velocity is reflected
    // about the corner-to-destination normal, so it flips to point away
    // from the corner with (up to rounding) the same magnitude
    let pos = v(-614400, -614400);
    let vel = v(307200, 307200);
    let center = v(0, 0);
    let rad = 614400;
    let (npos, nvel) = collision_player_circle(pos, vel, center, rad);
    assert_eq!(nvel, v(-307210, -307210));
    // and the position is pushed out just beyond the collision radius
    assert_eq!(npos, v(-434670, -434670));
    let dx = (npos.x - center.x) as i128;
    let dy = (npos.y - center.y) as i128;
    assert!(dx * dx + dy * dy >= (rad as i128) * (rad as i128));
}

#[test]
fn corner_reflection_keeps_tangent_motion() {
    // reflection is not a full stop: the component along the normal is
    // reversed while the tangential component is kept
    let pos = v(-614400, -307200);
    let vel = v(614400, 153600);
    let center = v(0, 0);
    let rad = 614400;
    let (_, nvel) = collision_player_circle(pos, vel, center, rad);
    // the contact normal here is straight down: y flips, x is untouched
    assert_eq!(nvel, v(614400, -153600));
}
