//! Two-dimensional integer vectors and the bounce reflection.
//!
//! Velocities are measured in world units per second. Contact normals are
//! axis-aligned unit vectors, so every reflection the simulation performs
//! is exact integer arithmetic.

use vstd::prelude::*;
use crate::geometry::VEL_LIMIT;

verus! {

/// A two-dimensional vector: a velocity in world units per second, or a
/// contact normal.
#[derive(Clone, Copy, PartialEq, Eq, Structural, Debug)]
pub struct Vec2 {
    pub x: i64,
    pub y: i64,
}

impl Vec2 {
    /// Both components are within the model's velocity range.
    pub open spec fn in_vel_range(&self) -> bool {
        &&& -VEL_LIMIT <= self.x <= VEL_LIMIT
        &&& -VEL_LIMIT <= self.y <= VEL_LIMIT
    }

    pub fn new(x: i64, y: i64) -> (r: Vec2)
        ensures
            r == (Vec2 { x, y }),
    {
        Vec2 { x, y }
    }
}

/// Dot product of `(vx, vy)` and `(nx, ny)`, over the mathematical
/// integers.
pub open spec fn dot_i(vx: int, vy: int, nx: int, ny: int) -> int {
    vx * nx + vy * ny
}

/// Dot product, over the mathematical integers.
pub open spec fn dot(v: Vec2, n: Vec2) -> int {
    dot_i(v.x as int, v.y as int, n.x as int, n.y as int)
}

/// A unit vector of the integer model: its squared length is one, which
/// leaves exactly the four axis-aligned unit vectors.
pub open spec fn is_unit(n: Vec2) -> bool {
    dot(n, n) == 1
}

/// First component of the mirror of `(vx, vy)` about the tangent defined
/// by the unit normal `(nx, ny)`: `v - 2 (v . n) n`.
pub open spec fn reflect_xi(vx: int, vy: int, nx: int, ny: int) -> int {
    vx - 2 * dot_i(vx, vy, nx, ny) * nx
}

/// Second component of the mirror of `(vx, vy)` about the tangent defined
/// by the unit normal `(nx, ny)`.
pub open spec fn reflect_yi(vx: int, vy: int, nx: int, ny: int) -> int {
    vy - 2 * dot_i(vx, vy, nx, ny) * ny
}

/// First component of the mirror of `v` about the tangent defined by `n`.
pub open spec fn reflect_x(v: Vec2, n: Vec2) -> int {
    reflect_xi(v.x as int, v.y as int, n.x as int, n.y as int)
}

/// Second component of the mirror of `v` about the tangent defined by `n`.
pub open spec fn reflect_y(v: Vec2, n: Vec2) -> int {
    reflect_yi(v.x as int, v.y as int, n.x as int, n.y as int)
}

/// An integer unit vector is one of the four axis-aligned unit vectors.
pub proof fn lemma_unit_cases(n: Vec2)
    requires
        is_unit(n),
    ensures
        (n == (Vec2 { x: 1, y: 0 })) || (n == (Vec2 { x: -1i64, y: 0 }))
            || (n == (Vec2 { x: 0, y: 1 })) || (n == (Vec2 { x: 0, y: -1i64 })),
{
    assert((n.x == 1 && n.y == 0) || (n.x == -1 && n.y == 0) || (n.x == 0 && n.y == 1)
        || (n.x == 0 && n.y == -1)) by (nonlinear_arith)
        requires
            n.x * n.x + n.y * n.y == 1,
    ;
}

/// Reflection about an axis-aligned unit normal flips exactly the
/// component along the normal: about a horizontal normal it negates the
/// horizontal component and keeps the vertical one, about a vertical
/// normal the other way round.
pub proof fn lemma_reflect_flips_one_component(vx: int, vy: int, n: Vec2)
    requires
        is_unit(n),
    ensures
        (reflect_xi(vx, vy, n.x as int, n.y as int) == -vx && reflect_yi(
            vx,
            vy,
            n.x as int,
            n.y as int,
        ) == vy) || (reflect_xi(vx, vy, n.x as int, n.y as int) == vx && reflect_yi(
            vx,
            vy,
            n.x as int,
            n.y as int,
        ) == -vy),
{
    lemma_unit_cases(n);
}

/// Mirror of the vector `vec` about the tangent defined by the unit normal
/// `normal`: the bounce response `-((vec . normal) * 2 * normal - vec)`.
pub fn reflection(vec: &Vec2, normal: &Vec2) -> (r: Vec2)
    requires
        vec.in_vel_range(),
        is_unit(*normal),
    ensures
        r.x == reflect_x(*vec, *normal),
        r.y == reflect_y(*vec, *normal),
        r.x * r.x + r.y * r.y == vec.x * vec.x + vec.y * vec.y,
        r.in_vel_range(),
{
    proof {
        lemma_unit_cases(*normal);
        lemma_reflection_preserves_speed(*vec, *normal);
    }
    let coef = (vec.x * normal.x + vec.y * normal.y) * 2;
    Vec2 { x: -(coef * normal.x - vec.x), y: -(coef * normal.y - vec.y) }
}

/// Reflection preserves speed: for every vector `v` and unit normal `n`,
/// the squared length of the mirrored vector equals the squared length of
/// `v`.
pub proof fn lemma_reflection_preserves_speed(v: Vec2, n: Vec2)
    requires
        is_unit(n),
    ensures
        reflect_x(v, n) * reflect_x(v, n) + reflect_y(v, n) * reflect_y(v, n) == v.x * v.x
            + v.y * v.y,
{
    assert((v.x - 2 * (v.x * n.x + v.y * n.y) * n.x) * (v.x - 2 * (v.x * n.x + v.y * n.y)
        * n.x) + (v.y - 2 * (v.x * n.x + v.y * n.y) * n.y) * (v.y - 2 * (v.x * n.x + v.y
        * n.y) * n.y) == v.x * v.x + v.y * v.y) by (nonlinear_arith)
        requires
            n.x * n.x + n.y * n.y == 1,
    ;
}

} // verus!
