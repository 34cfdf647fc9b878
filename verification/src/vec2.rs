use vstd::prelude::*;
use crate::num::{isqrt, isqrt_spec, lemma_isqrt_spec_bounds};
use vstd::arithmetic::mul::lemma_mul_inequality;

verus! {

/// Coordinates handed to `get_distance` must stay below this magnitude so
/// that the squared distance fits the wide intermediate type.
pub const COORD_LIMIT: i64 = 100_000_000_000_000_000;

/// A two-dimensional vector in fixed-point world coordinates.
#[derive(Clone, Copy, PartialEq, Eq, Structural, Debug)]
pub struct Vec2 {
    pub x: i64,
    pub y: i64,
}

/// The mathematical value of a `Vec2`: a pair of unbounded integers.
pub ghost struct V2 {
    pub x: int,
    pub y: int,
}

impl View for Vec2 {
    type V = V2;

    open spec fn view(&self) -> V2 {
        V2 { x: self.x as int, y: self.y as int }
    }
}

impl Vec2 {
    pub fn new(x: i64, y: i64) -> (v: Vec2)
        ensures
            v@ == (V2 { x: x as int, y: y as int }),
    {
        Vec2 { x, y }
    }
}

/// The squared Euclidean norm.
pub open spec fn norm2(v: V2) -> int {
    v.x * v.x + v.y * v.y
}

/// The scaled Euclidean distance between two points, rounded down to an
/// integer number of fixed-point steps.
pub open spec fn dist_spec(a: V2, b: V2) -> int {
    isqrt_spec(norm2(V2 { x: b.x - a.x, y: b.y - a.y }))
}

/// The square root of a value that is at most `b * b` is at most `b`.
pub proof fn lemma_isqrt_le(n: int, b: int)
    requires
        0 <= n,
        0 <= b,
        n <= b * b,
    ensures
        isqrt_spec(n) <= b,
{
    let r = isqrt_spec(n);
    lemma_isqrt_spec_bounds(n);
    if r > b {
        lemma_mul_inequality(b + 1, r, b + 1);
        lemma_mul_inequality(b + 1, r, r);
        assert(b * b < (b + 1) * (b + 1)) by (nonlinear_arith)
            requires
                b >= 0,
        ;
        assert(false);
    }
}

/// Each coordinate magnitude is bounded by the distance from the origin.
pub proof fn lemma_coord_le_dist(v: V2)
    ensures
        v.x <= dist_spec(V2 { x: 0, y: 0 }, v),
        -v.x <= dist_spec(V2 { x: 0, y: 0 }, v),
        v.y <= dist_spec(V2 { x: 0, y: 0 }, v),
        -v.y <= dist_spec(V2 { x: 0, y: 0 }, v),
{
    let n = norm2(v);
    assert(v.x * v.x >= 0 && v.y * v.y >= 0) by (nonlinear_arith);
    let d = isqrt_spec(n);
    lemma_isqrt_spec_bounds(n);
    if v.x > d {
        lemma_mul_inequality(d + 1, v.x, d + 1);
        lemma_mul_inequality(d + 1, v.x, v.x);
        assert(false);
    }
    if -v.x > d {
        lemma_mul_inequality(d + 1, -v.x, d + 1);
        lemma_mul_inequality(d + 1, -v.x, -v.x);
        assert((-v.x) * (-v.x) == v.x * v.x) by (nonlinear_arith);
        assert(false);
    }
    if v.y > d {
        lemma_mul_inequality(d + 1, v.y, d + 1);
        lemma_mul_inequality(d + 1, v.y, v.y);
        assert(false);
    }
    if -v.y > d {
        lemma_mul_inequality(d + 1, -v.y, d + 1);
        lemma_mul_inequality(d + 1, -v.y, -v.y);
        assert((-v.y) * (-v.y) == v.y * v.y) by (nonlinear_arith);
        assert(false);
    }
}

/// The scaled Euclidean distance between two points, the quantity the
/// gravity and collision steps are built on.
pub fn get_distance(point_a: &Vec2, point_b: Vec2) -> (d: i64)
    requires
        -COORD_LIMIT <= point_a.x <= COORD_LIMIT,
        -COORD_LIMIT <= point_a.y <= COORD_LIMIT,
        -COORD_LIMIT <= point_b.x <= COORD_LIMIT,
        -COORD_LIMIT <= point_b.y <= COORD_LIMIT,
    ensures
        d == dist_spec(point_a@, point_b@),
        0 <= d <= 300_000_000_000_000_000,
{
    let dx: i128 = point_b.x as i128 - point_a.x as i128;
    let dy: i128 = point_b.y as i128 - point_a.y as i128;
    proof {
        assert(dx * dx <= 40_000_000_000_000_000_000_000_000_000_000_000 && dx * dx >= 0)
            by (nonlinear_arith)
            requires
                -200_000_000_000_000_000 <= dx <= 200_000_000_000_000_000,
        ;
        assert(dy * dy <= 40_000_000_000_000_000_000_000_000_000_000_000 && dy * dy >= 0)
            by (nonlinear_arith)
            requires
                -200_000_000_000_000_000 <= dy <= 200_000_000_000_000_000,
        ;
    }
    let square_distance: i128 = dx * dx + dy * dy;
    let root: u64 = isqrt(square_distance as u128);
    proof {
        lemma_isqrt_le(square_distance as int, 300_000_000_000_000_000);
    }
    root as i64
}

} // verus!
