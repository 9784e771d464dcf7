//! Input codec: wire packet composition and decode boundaries.

use tanks_core::fx::Vec2;
use tanks_core::input::{decode_aim, decode_direction, input, BoxInput};

#[test]
fn packet_single_keys() {
    let p = input(true, false, false, false, false, false, false, false);
    assert_eq!(p.inp, 1);
    assert_eq!(p.sx, 127);
    assert_eq!(p.sy, 127);
    let p = input(false, true, false, false, false, false, false, false);
    assert_eq!(p.inp, 2);
    let p = input(false, false, true, false, false, false, false, false);
    assert_eq!(p.inp, 4);
    let p = input(false, false, false, true, false, false, false, false);
    assert_eq!(p.inp, 8);
}

#[test]
fn packet_aim_bytes() {
    let p = input(false, false, false, false, true, false, false, false);
    assert_eq!(p.sy, 255);
    let p = input(false, false, false, false, false, true, false, false);
    assert_eq!(p.sy, 0);
    let p = input(false, false, false, false, false, false, true, false);
    assert_eq!(p.sx, 0);
    let p = input(false, false, false, false, false, false, false, true);
    assert_eq!(p.sx, 255);
}

#[test]
fn packet_opposed_aim_keys() {
    // down overrides up, right overrides left
    let p = input(false, false, false, false, true, true, true, true);
    assert_eq!(p.sy, 0);
    assert_eq!(p.sx, 255);
}

#[test]
fn packet_is_three_bytes() {
    assert_eq!(std::mem::size_of::<BoxInput>(), 3);
}

#[test]
fn aim_neutral_is_zero() {
    assert_eq!(decode_aim(127, 127), Vec2 { x: 0, y: 0 });
}

#[test]
fn aim_extremes() {
    assert_eq!(decode_aim(0, 0), Vec2 { x: -30480, y: -30480 });
    assert_eq!(decode_aim(255, 255), Vec2 { x: 30720, y: 30720 });
    assert_eq!(decode_aim(255, 127), Vec2 { x: 30720, y: 0 });
}

#[test]
fn direction_axes_are_unit() {
    assert_eq!(decode_direction(1), Vec2 { x: 0, y: 61440 });
    assert_eq!(decode_direction(2), Vec2 { x: 0, y: -61440 });
    assert_eq!(decode_direction(4), Vec2 { x: -61440, y: 0 });
    assert_eq!(decode_direction(8), Vec2 { x: 61440, y: 0 });
}

#[test]
fn opposed_direction_bits_cancel() {
    // up + down
    assert_eq!(decode_direction(3), Vec2 { x: 0, y: 0 });
    // left + right
    assert_eq!(decode_direction(12), Vec2 { x: 0, y: 0 });
    // all four
    assert_eq!(decode_direction(15), Vec2 { x: 0, y: 0 });
    // up + down + right: only the horizontal axis remains
    assert_eq!(decode_direction(11), Vec2 { x: 61440, y: 0 });
}

#[test]
fn diagonal_direction_is_rescaled() {
    // up + right: both components shrink to roughly SCALE / sqrt(2)
    let d = decode_direction(9);
    assert_eq!(d, Vec2 { x: 43444, y: 43444 });
}
