//! Fixed-point scalars for the camera pipeline.
//!
//! Lengths are counted in steps of `1 / ONE` world units; angles in steps of
//! `1 / TURN` of a full revolution. Everything downstream is exact integer
//! arithmetic on these units.

use vstd::prelude::*;

verus! {

/// One world-space length unit, in length steps.
pub const ONE: i64 = 65536;

/// A full revolution, in angle steps.
pub const TURN: i64 = 4294967296;

/// Half a revolution; the polar angle ranges over `(0, HALF_TURN)`.
pub const HALF_TURN: i64 = 2147483648;

/// A quarter revolution.
pub const QUARTER_TURN: i64 = 1073741824;

/// An eighth of a revolution.
pub const EIGHTH_TURN: i64 = 536870912;

/// `TURN * 1048576`, a multiple of `TURN` larger than any intermediate angle
/// value; used to shift angles into non-negative range before reduction.
pub const TURN_SPAN: i64 = 4503599627370496;

/// A world-space point or vector in fixed-point length steps.
#[derive(Clone, Copy, Debug, PartialEq, Eq, Structural)]
pub struct Vec3Fx {
    pub x: i64,
    pub y: i64,
    pub z: i64,
}

impl Vec3Fx {
    /// The origin.
    pub fn zero() -> (v: Vec3Fx)
        ensures
            v == (Vec3Fx { x: 0, y: 0, z: 0 }),
    {
        Vec3Fx { x: 0, y: 0, z: 0 }
    }
}

/// Clamp of a mathematical integer into `[lo, hi]`.
pub open spec fn clamp_spec(x: int, lo: int, hi: int) -> int {
    if x < lo {
        lo
    } else if x > hi {
        hi
    } else {
        x
    }
}

/// Reduction of an angle into `[0, TURN)`.
pub open spec fn wrap_turn(x: int) -> int {
    x % (TURN as int)
}

/// `r` is the integer square root of `n`.
pub open spec fn is_sqrt(n: int, r: int) -> bool {
    0 <= r && r * r <= n < (r + 1) * (r + 1)
}

/// The integer square root is unique: `is_sqrt` pins its value.
pub proof fn lemma_isqrt_unique(n: int, a: int, b: int)
    requires
        is_sqrt(n, a),
        is_sqrt(n, b),
    ensures
        a == b,
{
    assert(a == b) by (nonlinear_arith)
        requires
            0 <= a,
            0 <= b,
            a * a <= n,
            n < (a + 1) * (a + 1),
            b * b <= n,
            n < (b + 1) * (b + 1),
    ;
}

pub fn clamp_i64(x: i64, lo: i64, hi: i64) -> (r: i64)
    requires
        lo <= hi,
    ensures
        r == clamp_spec(x as int, lo as int, hi as int),
{
    if x < lo {
        lo
    } else if x > hi {
        hi
    } else {
        x
    }
}

/// Reduce an angle value into `[0, TURN)`.
pub fn wrap_angle(x: i64) -> (r: i64)
    requires
        -TURN_SPAN <= x < TURN_SPAN,
    ensures
        r == wrap_turn(x as int),
        0 <= r < TURN,
{
    let shifted: u64 = (x + TURN_SPAN) as u64;
    let m: u64 = shifted % (TURN as u64);
    proof {
        vstd::arithmetic::div_mod::lemma_mod_multiples_vanish(
            1048576int,
            x as int,
            TURN as int,
        );
        vstd::arithmetic::div_mod::lemma_mod_bound(x as int + TURN_SPAN as int, TURN as int);
    }
    m as i64
}

/// Integer square root by bisection.
pub fn isqrt_u64(n: u64) -> (r: u64)
    ensures
        is_sqrt(n as int, r as int),
{
    if n == 0 {
        return 0;
    }
    let mut lo: u64 = 0;
    let mut hi: u64 = 4294967296;
    while lo + 1 < hi
        invariant
            lo < hi <= 4294967296,
            (lo as int) * (lo as int) <= n as int,
            (n as int) < (hi as int) * (hi as int),
        decreases hi - lo,
    {
        let mid: u64 = lo + (hi - lo) / 2;
        proof {
            vstd::arithmetic::mul::lemma_mul_upper_bound(
                mid as int,
                4294967296int,
                mid as int,
                4294967296int,
            );
        }
        let sq: u128 = (mid as u128) * (mid as u128);
        if sq <= n as u128 {
            lo = mid;
        } else {
            hi = mid;
        }
    }
    lo
}

} // verus!
