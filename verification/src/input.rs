//! Input codec: the 3-byte wire packet and its decoding.
//!
//! Each player sends, per tick, one direction bitmask byte and two aim
//! axis bytes.  The packet layout is fixed so that every peer decodes a
//! remote packet exactly as the sender encoded it.

use vstd::prelude::*;
use crate::fx::{sat, spec_normalize, v2_fits, normalize, Vec2, SCALE};

verus! {

/// Direction bit: move up.
pub const INPUT_UP: u8 = 1;

/// Direction bit: move down.
pub const INPUT_DOWN: u8 = 2;

/// Direction bit: move left.
pub const INPUT_LEFT: u8 = 4;

/// Direction bit: move right.
pub const INPUT_RIGHT: u8 = 8;

/// Neutral aim-axis byte: decodes to a contribution of zero.
pub const AIM_NEUTRAL: u8 = 127;

/// Fixed-point steps per aim-byte step: `SCALE / 256`, so that an aim
/// byte decodes to `(byte - 127) / 256` world units exactly.
pub const AIM_STEP: i64 = 240;

/// One player's input for one tick: exactly the 3 bytes that cross the
/// wire, trivially comparable and serializable.
#[derive(Clone, Copy, PartialEq, Eq, Structural, Debug)]
pub struct BoxInput {
    /// Direction bitmask (`INPUT_UP | ...`).
    pub inp: u8,
    /// Aim x axis: 0 = negative extreme, 127 = neutral, 255 = positive extreme.
    pub sx: u8,
    /// Aim y axis, encoded like `sx`.
    pub sy: u8,
}

pub open spec fn has_up(i: u8) -> bool {
    i & INPUT_UP != 0
}

pub open spec fn has_down(i: u8) -> bool {
    i & INPUT_DOWN != 0
}

pub open spec fn has_left(i: u8) -> bool {
    i & INPUT_LEFT != 0
}

pub open spec fn has_right(i: u8) -> bool {
    i & INPUT_RIGHT != 0
}

/// Compose the wire packet from the pressed keys.  When opposed aim keys
/// are pressed together, the later-applied one wins: down overrides up,
/// right overrides left.
pub fn input(
    up: bool,
    down: bool,
    left: bool,
    right: bool,
    aim_up: bool,
    aim_down: bool,
    aim_left: bool,
    aim_right: bool,
) -> (r: BoxInput)
    ensures
        r.inp == ((if up { INPUT_UP } else { 0u8 }) | (if down { INPUT_DOWN } else { 0u8 }) | (
        if left { INPUT_LEFT } else { 0u8 }) | (if right { INPUT_RIGHT } else { 0u8 })),
        has_up(r.inp) == up,
        has_down(r.inp) == down,
        has_left(r.inp) == left,
        has_right(r.inp) == right,
        r.sy == (if aim_down { 0u8 } else if aim_up { 255u8 } else { AIM_NEUTRAL }),
        r.sx == (if aim_right { 255u8 } else if aim_left { 0u8 } else { AIM_NEUTRAL }),
{
    let a: u8 = if up { INPUT_UP } else { 0 };
    let b: u8 = if down { INPUT_DOWN } else { 0 };
    let c: u8 = if left { INPUT_LEFT } else { 0 };
    let d: u8 = if right { INPUT_RIGHT } else { 0 };
    let inp: u8 = a | b | c | d;
    proof {
        assert((a | b | c | d) & 1u8 != 0 <==> a == 1u8) by (bit_vector)
            requires
                a == 1u8 || a == 0u8,
                b == 2u8 || b == 0u8,
                c == 4u8 || c == 0u8,
                d == 8u8 || d == 0u8,
        ;
        assert((a | b | c | d) & 2u8 != 0 <==> b == 2u8) by (bit_vector)
            requires
                a == 1u8 || a == 0u8,
                b == 2u8 || b == 0u8,
                c == 4u8 || c == 0u8,
                d == 8u8 || d == 0u8,
        ;
        assert((a | b | c | d) & 4u8 != 0 <==> c == 4u8) by (bit_vector)
            requires
                a == 1u8 || a == 0u8,
                b == 2u8 || b == 0u8,
                c == 4u8 || c == 0u8,
                d == 8u8 || d == 0u8,
        ;
        assert((a | b | c | d) & 8u8 != 0 <==> d == 8u8) by (bit_vector)
            requires
                a == 1u8 || a == 0u8,
                b == 2u8 || b == 0u8,
                c == 4u8 || c == 0u8,
                d == 8u8 || d == 0u8,
        ;
    }

    let mut x: u8 = AIM_NEUTRAL;
    let mut y: u8 = AIM_NEUTRAL;
    if aim_up {
        y = 255;
    }
    if aim_down {
        y = 0;
    }
    if aim_left {
        x = 0;
    }
    if aim_right {
        x = 255;
    }
    BoxInput { inp, sx: x, sy: y }
}

/// Raw direction contribution before rescaling: each axis is `-SCALE`,
/// `0` or `SCALE`, and opposed bits on one axis cancel to zero.
pub open spec fn spec_direction_raw(inp: u8) -> Vec2 {
    let ux: i64 = if has_left(inp) && !has_right(inp) {
        (-SCALE) as i64
    } else if has_right(inp) && !has_left(inp) {
        SCALE
    } else {
        0
    };
    let uy: i64 = if has_up(inp) && !has_down(inp) {
        SCALE
    } else if has_down(inp) && !has_up(inp) {
        (-SCALE) as i64
    } else {
        0
    };
    Vec2 { x: ux, y: uy }
}

/// Decoded direction: the raw contribution, rescaled to unit length when
/// it is not zero -- a no-op for a single axis, so its effect is that
/// diagonal movement is no faster than orthogonal movement.
pub open spec fn spec_decode_direction(inp: u8) -> Vec2 {
    let raw = spec_direction_raw(inp);
    if raw.x == 0 && raw.y == 0 {
        raw
    } else {
        spec_normalize(raw)
    }
}

pub fn decode_direction(inp: u8) -> (r: Vec2)
    ensures
        r == spec_decode_direction(inp),
        v2_fits(r),
{
    let mut ux: i64 = 0;
    let mut uy: i64 = 0;
    if inp & INPUT_UP != 0 && inp & INPUT_DOWN == 0 {
        uy = SCALE;
    }
    if inp & INPUT_UP == 0 && inp & INPUT_DOWN != 0 {
        uy = -SCALE;
    }
    if inp & INPUT_LEFT != 0 && inp & INPUT_RIGHT == 0 {
        ux = -SCALE;
    }
    if inp & INPUT_LEFT == 0 && inp & INPUT_RIGHT != 0 {
        ux = SCALE;
    }
    let raw = Vec2 { x: ux, y: uy };
    if ux == 0 && uy == 0 {
        raw
    } else {
        normalize(raw)
    }
}

/// Decoded aim vector: each axis contributes `(byte - 127) / 256` world
/// units, as fixed-point steps.
pub open spec fn spec_decode_aim(sx: u8, sy: u8) -> Vec2 {
    Vec2 { x: ((sx - 127) * AIM_STEP) as i64, y: ((sy - 127) * AIM_STEP) as i64 }
}

pub fn decode_aim(sx: u8, sy: u8) -> (r: Vec2)
    ensures
        r == spec_decode_aim(sx, sy),
        v2_fits(r),
        sx == AIM_NEUTRAL ==> r.x == 0,
        sy == AIM_NEUTRAL ==> r.y == 0,
{
    let x: i64 = (sx as i64 - 127) * AIM_STEP;
    let y: i64 = (sy as i64 - 127) * AIM_STEP;
    Vec2 { x, y }
}

/// Aim decode boundary: byte 127 is exactly neutral and bytes 0 and 255
/// decode to the two extreme contributions.
pub proof fn lemma_aim_decode_boundary(sx: u8, sy: u8)
    ensures
        sx == 127 ==> spec_decode_aim(sx, sy).x == 0,
        sx == 0 ==> spec_decode_aim(sx, sy).x == -127 * AIM_STEP,
        sx == 255 ==> spec_decode_aim(sx, sy).x == 128 * AIM_STEP,
        sy == 127 ==> spec_decode_aim(sx, sy).y == 0,
        sy == 0 ==> spec_decode_aim(sx, sy).y == -127 * AIM_STEP,
        sy == 255 ==> spec_decode_aim(sx, sy).y == 128 * AIM_STEP,
{
}

/// Opposed direction bits cancel: with both up and down set (or both
/// clear), the decoded vertical contribution is zero, and likewise for
/// left and right on the horizontal axis.
pub proof fn lemma_direction_cancel(inp: u8)
    ensures
        has_up(inp) == has_down(inp) ==> spec_decode_direction(inp).y == 0,
        has_left(inp) == has_right(inp) ==> spec_decode_direction(inp).x == 0,
{
    let raw = spec_direction_raw(inp);
    if has_up(inp) == has_down(inp) {
        assert(raw.y == 0);
        if raw.x != 0 {
            crate::fx::lemma_len_pos(raw);
            assert(spec_normalize(raw).y == sat(0 * SCALE / (crate::fx::spec_len(raw) as int)) as i64);
            assert(0 * SCALE == 0);
            vstd::arithmetic::div_mod::lemma_div_of0(crate::fx::spec_len(raw) as int);
        }
    }
    if has_left(inp) == has_right(inp) {
        assert(raw.x == 0);
        if raw.y != 0 {
            crate::fx::lemma_len_pos(raw);
            assert(spec_normalize(raw).x == sat(0 * SCALE / (crate::fx::spec_len(raw) as int)) as i64);
            assert(0 * SCALE == 0);
            vstd::arithmetic::div_mod::lemma_div_of0(crate::fx::spec_len(raw) as int);
        }
    }
}

} // verus!
