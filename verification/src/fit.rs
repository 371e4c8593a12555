//! Initial camera pose from the scene's bounding box.
//!
//! With `size` the diagonal length of the box and `center` its midpoint,
//! the eye starts at `center + (size/2, size/5, size/2)` looking at the
//! center — a pleasing three-quarter view slightly above the scene.

use vstd::prelude::*;
use vstd::arithmetic::div_mod::{lemma_fundamental_div_mod, lemma_fundamental_div_mod_converse, lemma_mod_bound};
use vstd::arithmetic::mul::lemma_mul_upper_bound;
use crate::math::{is_sqrt, isqrt_u64, Vec3Fx};

verus! {

/// Largest bounding-box coordinate magnitude (16 384 world units).
pub const COORD_LIMIT: i64 = 1073741824;

/// An axis-aligned bounding box.
#[derive(Clone, Copy, Debug, PartialEq, Eq, Structural)]
pub struct Bounds {
    pub min: Vec3Fx,
    pub max: Vec3Fx,
}

impl Bounds {
    /// The box is ordered and within the world cube.
    pub open spec fn wf(self) -> bool {
        &&& -COORD_LIMIT <= self.min.x <= self.max.x <= COORD_LIMIT
        &&& -COORD_LIMIT <= self.min.y <= self.max.y <= COORD_LIMIT
        &&& -COORD_LIMIT <= self.min.z <= self.max.z <= COORD_LIMIT
    }

    /// Squared length of the box diagonal.
    pub open spec fn size_sq(self) -> int {
        let dx = self.max.x - self.min.x;
        let dy = self.max.y - self.min.y;
        let dz = self.max.z - self.min.z;
        dx * dx + dy * dy + dz * dz
    }
}

/// The derived starting pose.
#[derive(Clone, Copy, Debug, PartialEq, Eq, Structural)]
pub struct FitPose {
    /// The eye.
    pub position: Vec3Fx,
    /// The look-at point: the box center.
    pub target: Vec3Fx,
    /// The box diagonal length, rounded down.
    pub size: i64,
}

/// Midpoint of two bounded coordinates, rounding down.
fn midpoint(lo: i64, hi: i64) -> (m: i64)
    requires
        -COORD_LIMIT <= lo <= COORD_LIMIT,
        -COORD_LIMIT <= hi <= COORD_LIMIT,
    ensures
        m == (lo + hi) / 2,
{
    let shifted: u64 = ((lo + COORD_LIMIT) as u64) + ((hi + COORD_LIMIT) as u64);
    let half: u64 = shifted / 2;
    let m: i64 = (half as i64) - COORD_LIMIT;
    proof {
        let a = lo as int + hi as int;
        lemma_fundamental_div_mod(a, 2);
        lemma_mod_bound(a, 2);
        lemma_fundamental_div_mod_converse(a + 2 * (COORD_LIMIT as int), 2, a / 2 + COORD_LIMIT, a % 2);
    }
    m
}

/// One squared coordinate difference of an ordered, bounded pair.
fn square_extent(lo: i64, hi: i64) -> (s: u64)
    requires
        -COORD_LIMIT <= lo <= hi <= COORD_LIMIT,
    ensures
        s == (hi - lo) * (hi - lo),
        s <= 0x4000000000000000,
{
    let d: u64 = (hi - lo) as u64;
    proof {
        lemma_mul_upper_bound(d as int, 2147483648int, d as int, 2147483648int);
    }
    d * d
}

/// Derive the starting pose from the bounding box: the target is the box
/// center, the eye stands at `center + (size/2, size/5, size/2)` with
/// `size` the diagonal length rounded down.
pub fn fit_camera_to_bounds(b: &Bounds) -> (p: FitPose)
    requires
        b.wf(),
    ensures
        is_sqrt(b.size_sq(), p.size as int),
        p.target.x == (b.min.x + b.max.x) / 2,
        p.target.y == (b.min.y + b.max.y) / 2,
        p.target.z == (b.min.z + b.max.z) / 2,
        p.position.x == p.target.x + p.size / 2,
        p.position.y == p.target.y + p.size / 5,
        p.position.z == p.target.z + p.size / 2,
{
    let sx: u64 = square_extent(b.min.x, b.max.x);
    let sy: u64 = square_extent(b.min.y, b.max.y);
    let sz: u64 = square_extent(b.min.z, b.max.z);
    let s2: u64 = sx + sy + sz;
    let size64: u64 = isqrt_u64(s2);
    proof {
        assert(size64 <= 4294967296) by (nonlinear_arith)
            requires
                (size64 as int) * (size64 as int) <= 0xffffffffffffffff,
        ;
    }
    let size: i64 = size64 as i64;
    let cx: i64 = midpoint(b.min.x, b.max.x);
    let cy: i64 = midpoint(b.min.y, b.max.y);
    let cz: i64 = midpoint(b.min.z, b.max.z);
    FitPose {
        position: Vec3Fx { x: cx + size / 2, y: cy + size / 5, z: cz + size / 2 },
        target: Vec3Fx { x: cx, y: cy, z: cz },
        size,
    }
}

} // verus!
