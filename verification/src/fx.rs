//! Fixed-point scalars and 2-D vectors.
//!
//! Every physically meaningful quantity of the simulation (positions,
//! velocities, radii, timers) is a fixed-point number: an `i64` counting
//! steps of `1 / SCALE` world units.  Integer arithmetic makes every tick
//! bit-identical on every machine, which is what rollback networking
//! demands; floating point would not give that guarantee.
//!
//! Stored quantities saturate at `FX_MAX` in magnitude, so every operation
//! is total: no input can overflow or panic.

use vstd::prelude::*;

verus! {

/// Number of fixed-point steps in one world unit.
///
/// The value is divisible by 256 (so aim bytes decode exactly), by 60 (so
/// the tick duration of 1/60 s is exact) and by 10 (so the friction and
/// restitution fractions of the reference behaviour are exact).
pub const SCALE: i64 = 61440;

/// Largest magnitude a stored fixed-point quantity may take.
///
/// The bound keeps every intermediate product of the collision predicates,
/// including the quadratic discriminant, well inside `i128`.
pub const FX_MAX: i64 = 536870912;

/// A fixed-point value in the representable band.
pub open spec fn fits(v: int) -> bool {
    -FX_MAX <= v <= FX_MAX
}

/// Saturation: clamp an unbounded intermediate to the representable band.
pub open spec fn sat(v: int) -> int {
    if v > FX_MAX {
        FX_MAX as int
    } else if v < -(FX_MAX as int) {
        -(FX_MAX as int)
    } else {
        v
    }
}

/// |a * b| <= m * m whenever |a|, |b| <= m.
pub proof fn lemma_mul_bounds(a: int, b: int, m: int)
    by (nonlinear_arith)
    requires
        0 <= m,
        -m <= a <= m,
        -m <= b <= m,
    ensures
        -(m * m) <= a * b <= m * m,
{
}

/// Saturating fixed-point addition.
pub fn fx_add(a: i64, b: i64) -> (r: i64)
    requires
        fits(a as int),
        fits(b as int),
    ensures
        r == sat(a + b),
{
    let s: i64 = a + b;
    if s > FX_MAX {
        FX_MAX
    } else if s < -FX_MAX {
        -FX_MAX
    } else {
        s
    }
}

/// Saturating fixed-point subtraction.
pub fn fx_sub(a: i64, b: i64) -> (r: i64)
    requires
        fits(a as int),
        fits(b as int),
    ensures
        r == sat(a - b),
{
    let s: i64 = a - b;
    if s > FX_MAX {
        FX_MAX
    } else if s < -FX_MAX {
        -FX_MAX
    } else {
        s
    }
}

/// Saturating fixed-point multiplication: `(a * b) / SCALE`, where the
/// quotient is the mathematical floor (the spec-level Euclidean quotient
/// for a positive divisor).
pub fn fx_mul(a: i64, b: i64) -> (r: i64)
    requires
        fits(a as int),
        fits(b as int),
    ensures
        r == sat(a * b / (SCALE as int)),
{
    proof {
        lemma_mul_bounds(a as int, b as int, FX_MAX as int);
    }
    let p: i128 = (a as i128) * (b as i128);
    let q: i128 = p.checked_div_euclid(SCALE as i128).unwrap();
    if q > FX_MAX as i128 {
        FX_MAX
    } else if q < -(FX_MAX as i128) {
        -FX_MAX
    } else {
        q as i64
    }
}

/// A 2-D fixed-point vector.
#[derive(Clone, Copy, PartialEq, Eq, Structural, Debug)]
pub struct Vec2 {
    pub x: i64,
    pub y: i64,
}

/// Both components of a vector are in the representable band.
pub open spec fn v2_fits(v: Vec2) -> bool {
    fits(v.x as int) && fits(v.y as int)
}

/// Componentwise saturating vector addition.
pub open spec fn spec_v2_add(a: Vec2, b: Vec2) -> Vec2 {
    Vec2 { x: sat(a.x + b.x) as i64, y: sat(a.y + b.y) as i64 }
}

pub fn v2_add(a: Vec2, b: Vec2) -> (r: Vec2)
    requires
        v2_fits(a),
        v2_fits(b),
    ensures
        r == spec_v2_add(a, b),
        v2_fits(r),
{
    Vec2 { x: fx_add(a.x, b.x), y: fx_add(a.y, b.y) }
}

/// Componentwise saturating vector subtraction.
pub open spec fn spec_v2_sub(a: Vec2, b: Vec2) -> Vec2 {
    Vec2 { x: sat(a.x - b.x) as i64, y: sat(a.y - b.y) as i64 }
}

pub fn v2_sub(a: Vec2, b: Vec2) -> (r: Vec2)
    requires
        v2_fits(a),
        v2_fits(b),
    ensures
        r == spec_v2_sub(a, b),
        v2_fits(r),
{
    Vec2 { x: fx_sub(a.x, b.x), y: fx_sub(a.y, b.y) }
}

/// Saturating scalar multiple of a vector.
pub open spec fn spec_v2_scale(v: Vec2, k: int) -> Vec2 {
    Vec2 { x: sat(v.x * k / (SCALE as int)) as i64, y: sat(v.y * k / (SCALE as int)) as i64 }
}

pub fn v2_scale(v: Vec2, k: i64) -> (r: Vec2)
    requires
        v2_fits(v),
        fits(k as int),
    ensures
        r == spec_v2_scale(v, k as int),
        v2_fits(r),
{
    Vec2 { x: fx_mul(v.x, k), y: fx_mul(v.y, k) }
}

/// Saturating fixed-point dot product.
pub open spec fn spec_v2_dot(a: Vec2, b: Vec2) -> int {
    sat((a.x * b.x + a.y * b.y) / (SCALE as int))
}

pub fn v2_dot(a: Vec2, b: Vec2) -> (r: i64)
    requires
        v2_fits(a),
        v2_fits(b),
    ensures
        r == spec_v2_dot(a, b),
{
    proof {
        lemma_mul_bounds(a.x as int, b.x as int, FX_MAX as int);
        lemma_mul_bounds(a.y as int, b.y as int, FX_MAX as int);
    }
    let p: i128 = (a.x as i128) * (b.x as i128) + (a.y as i128) * (b.y as i128);
    let q: i128 = p.checked_div_euclid(SCALE as i128).unwrap();
    if q > FX_MAX as i128 {
        FX_MAX
    } else if q < -(FX_MAX as i128) {
        -FX_MAX
    } else {
        q as i64
    }
}

/// Squared raw length of a vector, exact (raw steps squared, no rescaling).
pub open spec fn spec_len_sq(v: Vec2) -> int {
    v.x * v.x + v.y * v.y
}

pub fn len_sq(v: Vec2) -> (r: u64)
    requires
        v2_fits(v),
    ensures
        r == spec_len_sq(v),
{
    proof {
        lemma_mul_bounds(v.x as int, v.x as int, FX_MAX as int);
        lemma_mul_bounds(v.y as int, v.y as int, FX_MAX as int);
        assert(v.x * v.x >= 0 && v.y * v.y >= 0) by (nonlinear_arith);
    }
    let p: i128 = (v.x as i128) * (v.x as i128) + (v.y as i128) * (v.y as i128);
    p as u64
}

/// Integer square root, rounded down, defined by stepping up from zero.
pub open spec fn sqrt_floor(n: nat) -> nat
    decreases n,
{
    if n == 0 {
        0
    } else {
        let r = sqrt_floor((n - 1) as nat);
        if (r + 1) * (r + 1) <= n {
            r + 1
        } else {
            r
        }
    }
}

/// For a positive divisor, the quotient is no larger in magnitude than
/// the dividend.
pub proof fn lemma_div_bounds(p: int, d: int, m: int)
    by (nonlinear_arith)
    requires
        d >= 1,
        0 <= m,
        -m <= p <= m,
    ensures
        -m <= p / d <= m,
{
}

/// `sqrt_floor(n)` is the floor of the real square root of `n`.
pub proof fn lemma_sqrt_floor(n: nat)
    ensures
        sqrt_floor(n) * sqrt_floor(n) <= n,
        n < (sqrt_floor(n) + 1) * (sqrt_floor(n) + 1),
    decreases n,
{
    let r = sqrt_floor(n);
    if n == 0 {
        assert(r == 0);
        assert(n < (r + 1) * (r + 1)) by (nonlinear_arith)
            requires
                n == 0,
                r == 0,
        ;
    } else {
        lemma_sqrt_floor((n - 1) as nat);
        let p = sqrt_floor((n - 1) as nat);
        if (p + 1) * (p + 1) <= n {
            assert(r == p + 1);
            assert(r * r <= n);
            assert(n < (r + 1) * (r + 1)) by (nonlinear_arith)
                requires
                    n <= (p + 1) * (p + 1),
                    r == p + 1,
                    p >= 0,
            ;
        } else {
            assert(r == p);
            assert(r * r <= n);
            assert(n < (r + 1) * (r + 1));
        }
    }
}

/// Any integer bracketing the square root this way is `sqrt_floor`.
pub proof fn lemma_sqrt_floor_unique(n: nat, r: nat)
    requires
        r * r <= n,
        n < (r + 1) * (r + 1),
    ensures
        r == sqrt_floor(n),
{
    lemma_sqrt_floor(n);
    let s = sqrt_floor(n);
    if r < s {
        assert((r + 1) * (r + 1) <= s * s) by (nonlinear_arith)
            requires
                r + 1 <= s,
        ;
    }
    if s < r {
        assert((s + 1) * (s + 1) <= r * r) by (nonlinear_arith)
            requires
                s + 1 <= r,
        ;
    }
}

/// Integer square root by bisection.
pub fn isqrt(n: u64) -> (r: u64)
    ensures
        r == sqrt_floor(n as nat),
{
    let mut lo: u64 = 0;
    let mut hi: u64 = 4294967296;
    proof {
        assert((4294967296 as int) * (4294967296 as int) > n) by (nonlinear_arith)
            requires
                n <= u64::MAX,
        ;
    }
    while hi - lo > 1
        invariant
            lo < hi <= 4294967296,
            lo * lo <= n,
            n < hi * hi,
        decreases hi - lo,
    {
        let mid: u64 = lo + (hi - lo) / 2;
        proof {
            lemma_mul_bounds(mid as int, mid as int, 4294967296);
        }
        let sq: u128 = (mid as u128) * (mid as u128);
        if sq <= n as u128 {
            lo = mid;
        } else {
            hi = mid;
        }
    }
    proof {
        lemma_sqrt_floor_unique(n as nat, lo as nat);
    }
    lo
}

/// Raw length of a vector: `sqrt_floor` of its squared raw length.
pub open spec fn spec_len(v: Vec2) -> nat {
    sqrt_floor(spec_len_sq(v) as nat)
}

/// Direction of a non-zero vector, rescaled to (roughly) unit length:
/// each component becomes `c * SCALE / len`, rounded down.
pub open spec fn spec_normalize(v: Vec2) -> Vec2 {
    let l = spec_len(v) as int;
    Vec2 { x: sat(v.x * SCALE / l) as i64, y: sat(v.y * SCALE / l) as i64 }
}

/// A non-zero fitting vector has a non-zero raw length.
pub proof fn lemma_len_pos(v: Vec2)
    requires
        v.x != 0 || v.y != 0,
    ensures
        spec_len(v) >= 1,
        spec_len_sq(v) >= 1,
{
    assert(v.x * v.x + v.y * v.y >= 1) by (nonlinear_arith)
        requires
            v.x != 0 || v.y != 0,
    ;
    lemma_sqrt_floor(spec_len_sq(v) as nat);
}

pub fn normalize(v: Vec2) -> (r: Vec2)
    requires
        v2_fits(v),
        v.x != 0 || v.y != 0,
    ensures
        r == spec_normalize(v),
        v2_fits(r),
{
    proof {
        lemma_len_pos(v);
        lemma_mul_bounds(v.x as int, SCALE as int, FX_MAX as int);
        lemma_mul_bounds(v.y as int, SCALE as int, FX_MAX as int);
        lemma_div_bounds(
            v.x * SCALE,
            spec_len(v) as int,
            (FX_MAX as int) * (FX_MAX as int),
        );
        lemma_div_bounds(
            v.y * SCALE,
            spec_len(v) as int,
            (FX_MAX as int) * (FX_MAX as int),
        );
    }
    let l: u64 = isqrt(len_sq(v));
    let px: i128 = (v.x as i128) * (SCALE as i128);
    let py: i128 = (v.y as i128) * (SCALE as i128);
    let qx: i128 = px.checked_div_euclid(l as i128).unwrap();
    let qy: i128 = py.checked_div_euclid(l as i128).unwrap();
    Vec2 { x: clamp_i128(qx), y: clamp_i128(qy) }
}

/// Clamp a wide intermediate into the representable band.
pub(crate) fn clamp_i128(q: i128) -> (r: i64)
    ensures
        r == sat(q as int),
{
    if q > FX_MAX as i128 {
        FX_MAX
    } else if q < -(FX_MAX as i128) {
        -FX_MAX
    } else {
        q as i64
    }
}

} // verus!
