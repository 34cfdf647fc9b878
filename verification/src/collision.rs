use vstd::prelude::*;
use crate::num::{SCALE, absi, div_trunc, lemma_tdiv_le_factor, lemma_tdiv_lt_factor, tdiv};
use crate::vec2::{Vec2, V2, dist_spec, get_distance, lemma_coord_le_dist, lemma_isqrt_le, norm2};
use crate::body::{MASS_LIMIT, POS_LIMIT, VEL_STEP_LIMIT};
use crate::gravity::origin;

verus! {

/// The denominator of the collision basis change: the distance between the
/// bodies' centres, kept away from zero so the basis is always defined.
pub open spec fn collision_den(p: V2) -> int {
    let d = dist_spec(origin(), p);
    if d < 1 {
        1
    } else {
        d
    }
}

/// The component of `v` along the unit vector from the ball at `p` toward
/// the planet at the origin.
pub open spec fn normal_component(p: V2, v: V2) -> int {
    tdiv(-(v.x * p.x) - v.y * p.y, collision_den(p))
}

/// The component of `v` across that line.
pub open spec fn tangential_component(p: V2, v: V2) -> int {
    tdiv(v.x * p.y - v.y * p.x, collision_den(p))
}

/// The one-dimensional elastic collision formula for the ball's normal
/// component `u`, with the planet initially at rest and the plain masses
/// used directly.
pub open spec fn elastic_normal_ball(u: int, planet_mass: int, ball_mass: int) -> int {
    tdiv((planet_mass - ball_mass) * u, planet_mass + ball_mass)
}

/// What the same formula hands the planet.
pub open spec fn elastic_normal_planet(u: int, planet_mass: int, ball_mass: int) -> int {
    tdiv(-2 * ball_mass * u, planet_mass + ball_mass)
}

/// The stillness check the model demands of the attractor: both components
/// of the velocity the formula assigns to it are below five thousandths of
/// a world unit, so the value rounds to zero at two decimal places.
pub open spec fn planet_still(pv: V2) -> bool {
    absi(pv.x) < 5 && absi(pv.y) < 5
}

/// What a two-body impact leaves behind: the projectile's new velocity and
/// the velocity the formula assigns to the attractor (which must be
/// negligible whenever the attractor dominates the mass ratio).
pub ghost struct CollisionOutcome {
    pub ball_velocity: V2,
    pub planet_velocity: V2,
}

/// The inelastic two-body response in the collision basis, with the planet
/// at rest before the impact.  `p` is the projectile's (rolled-back)
/// position, `v` its already-damped velocity.  The velocities are rotated
/// into the normal/tangential frame of the line between the centres, the
/// one-dimensional elastic formula is applied to the normal components, and
/// the result is rotated back; one truncating division per projection.
pub open spec fn collision_response_spec(
    p: V2,
    v: V2,
    planet_mass: int,
    ball_mass: int,
) -> CollisionOutcome {
    let den = collision_den(p);
    let u21 = normal_component(p, v);
    let u22 = tangential_component(p, v);
    let v21 = elastic_normal_ball(u21, planet_mass, ball_mass);
    let v12 = elastic_normal_planet(u21, planet_mass, ball_mass);
    CollisionOutcome {
        ball_velocity: V2 {
            x: tdiv(u22 * p.y + v21 * p.x, den),
            y: tdiv(-(u22 * p.x) + v21 * p.y, den),
        },
        planet_velocity: V2 { x: tdiv(v12 * p.x, den), y: tdiv(v12 * p.y, den) },
    }
}

/// Both coordinates of `p` are bounded in magnitude by `collision_den(p)`.
proof fn lemma_coords_le_den(p: V2)
    ensures
        collision_den(p) >= 1,
        absi(p.x) <= collision_den(p),
        absi(p.y) <= collision_den(p),
{
    lemma_coord_le_dist(p);
}

/// The magnitude budget of the response, in terms of the L1 norm of the
/// incoming velocity: the basis components never exceed it, the elastic
/// outputs never exceed small multiples of it.
pub proof fn lemma_collision_response_bounds(p: V2, v: V2, planet_mass: int, ball_mass: int)
    requires
        0 < planet_mass,
        0 < ball_mass,
    ensures
        ({
            let l1 = absi(v.x) + absi(v.y);
            let u21 = normal_component(p, v);
            let u22 = tangential_component(p, v);
            let out = collision_response_spec(p, v, planet_mass, ball_mass);
            &&& absi(u21) <= l1
            &&& absi(u22) <= l1
            &&& absi(elastic_normal_ball(u21, planet_mass, ball_mass)) <= l1
            &&& absi(elastic_normal_planet(u21, planet_mass, ball_mass)) <= 2 * l1
            &&& absi(out.ball_velocity.x) <= 3 * l1
            &&& absi(out.ball_velocity.y) <= 3 * l1
            &&& absi(out.planet_velocity.x) <= 2 * l1
            &&& absi(out.planet_velocity.y) <= 2 * l1
        }),
{
    let den = collision_den(p);
    let l1 = absi(v.x) + absi(v.y);
    let msum = planet_mass + ball_mass;
    lemma_coords_le_den(p);
    assert(absi(-(v.x * p.x) - v.y * p.y) <= l1 * den && absi(v.x * p.y - v.y * p.x) <= l1 * den)
        by (nonlinear_arith)
        requires
            den >= 1 && absi(p.x) <= den && absi(p.y) <= den && l1 == absi(v.x) + absi(v.y) && (
            forall|a: int|
                absi(a) == (if a >= 0 {
                    a
                } else {
                    -a
                })),
    ;
    let u21 = normal_component(p, v);
    let u22 = tangential_component(p, v);
    lemma_tdiv_le_factor(-(v.x * p.x) - v.y * p.y, l1, den);
    lemma_tdiv_le_factor(v.x * p.y - v.y * p.x, l1, den);
    assert(absi((planet_mass - ball_mass) * u21) <= l1 * msum && absi(-2 * ball_mass * u21) <= (2
        * l1) * msum) by (nonlinear_arith)
        requires
            0 < planet_mass && 0 < ball_mass && msum == planet_mass + ball_mass && absi(u21) <= l1
                && (forall|a: int|
                absi(a) == (if a >= 0 {
                    a
                } else {
                    -a
                })),
    ;
    let v21 = elastic_normal_ball(u21, planet_mass, ball_mass);
    let v12 = elastic_normal_planet(u21, planet_mass, ball_mass);
    lemma_tdiv_le_factor((planet_mass - ball_mass) * u21, l1, msum);
    lemma_tdiv_le_factor(-2 * ball_mass * u21, 2 * l1, msum);
    assert(absi(u22 * p.y + v21 * p.x) <= (3 * l1) * den && absi(-(u22 * p.x) + v21 * p.y) <= (3
        * l1) * den && absi(v12 * p.x) <= (2 * l1) * den && absi(v12 * p.y) <= (2 * l1) * den)
        by (nonlinear_arith)
        requires
            den >= 1 && absi(p.x) <= den && absi(p.y) <= den && absi(u22) <= l1 && absi(v21) <= l1
                && absi(v12) <= 2 * l1 && (forall|a: int|
                absi(a) == (if a >= 0 {
                    a
                } else {
                    -a
                })),
    ;
    lemma_tdiv_le_factor(u22 * p.y + v21 * p.x, 3 * l1, den);
    lemma_tdiv_le_factor(-(u22 * p.x) + v21 * p.y, 3 * l1, den);
    lemma_tdiv_le_factor(v12 * p.x, 2 * l1, den);
    lemma_tdiv_le_factor(v12 * p.y, 2 * l1, den);
}

/// Whenever the attractor dominates the mass ratio enough for the incoming
/// speed — in particular a planet a million times heavier than the ball at
/// any speed below a few thousand units — the velocity the elastic formula
/// assigns to the attractor has magnitude below one hundredth of a world
/// unit: the attractor stays still, as the model demands.
pub proof fn lemma_planet_velocity_negligible(p: V2, v: V2, planet_mass: int, ball_mass: int)
    requires
        0 < planet_mass,
        0 < ball_mass,
        2 * ball_mass * (absi(v.x) + absi(v.y)) < 5 * (planet_mass + ball_mass),
    ensures
        ({
            let pv = collision_response_spec(p, v, planet_mass, ball_mass).planet_velocity;
            &&& planet_still(pv)
            &&& norm2(pv) < (SCALE / 100) * (SCALE / 100)
        }),
{
    let den = collision_den(p);
    let l1 = absi(v.x) + absi(v.y);
    let msum = planet_mass + ball_mass;
    lemma_coords_le_den(p);
    lemma_collision_response_bounds(p, v, planet_mass, ball_mass);
    let u21 = normal_component(p, v);
    assert(absi(-2 * ball_mass * u21) < 5 * msum) by (nonlinear_arith)
        requires
            0 < ball_mass && 0 < msum && absi(u21) <= l1 && l1 >= 0 && 2 * ball_mass * l1 < 5
                * msum && (forall|a: int|
                absi(a) == (if a >= 0 {
                    a
                } else {
                    -a
                })),
    ;
    let v12 = elastic_normal_planet(u21, planet_mass, ball_mass);
    lemma_tdiv_lt_factor(-2 * ball_mass * u21, 5, msum);
    assert(absi(v12) <= 4);
    assert(absi(v12 * p.x) <= 4 * den && absi(v12 * p.y) <= 4 * den) by (nonlinear_arith)
        requires
            den >= 1 && absi(p.x) <= den && absi(p.y) <= den && absi(v12) <= 4 && (forall|a: int|
                absi(a) == (if a >= 0 {
                    a
                } else {
                    -a
                })),
    ;
    let pvx = tdiv(v12 * p.x, den);
    let pvy = tdiv(v12 * p.y, den);
    lemma_tdiv_le_factor(v12 * p.x, 4, den);
    lemma_tdiv_le_factor(v12 * p.y, 4, den);
    assert(pvx * pvx + pvy * pvy < 100) by (nonlinear_arith)
        requires
            absi(pvx) <= 4 && absi(pvy) <= 4 && (forall|a: int|
                absi(a) == (if a >= 0 {
                    a
                } else {
                    -a
                })),
    ;
    assert(collision_response_spec(p, v, planet_mass, ball_mass).planet_velocity == (V2 {
        x: pvx,
        y: pvy,
    }));
    assert(norm2(V2 { x: pvx, y: pvy }) == pvx * pvx + pvy * pvy);
    assert(SCALE / 100 == 10) by {
        vstd::arithmetic::div_mod::lemma_div_multiples_vanish(10, 100);
    };
}

/// The collision response, executed: called with the rolled-back position
/// and the damped velocity once a step has penetrated the planet.  Returns
/// the projectile's new velocity together with the velocity the formula
/// assigns to the planet, which the caller holds to the stillness check.
pub fn collision_response(position: &Vec2, velocity: &Vec2, planet_mass: u64, ball_mass: u64) -> (r:
    (Vec2, Vec2))
    requires
        -POS_LIMIT <= position.x <= POS_LIMIT,
        -POS_LIMIT <= position.y <= POS_LIMIT,
        -VEL_STEP_LIMIT <= velocity.x <= VEL_STEP_LIMIT,
        -VEL_STEP_LIMIT <= velocity.y <= VEL_STEP_LIMIT,
        0 < planet_mass <= MASS_LIMIT,
        0 < ball_mass <= MASS_LIMIT,
    ensures
        ({
            let out = collision_response_spec(
                position@,
                velocity@,
                planet_mass as int,
                ball_mass as int,
            );
            &&& r.0@ == out.ball_velocity
            &&& r.1@ == out.planet_velocity
        }),
{
    proof {
        lemma_collision_response_bounds(
            position@,
            velocity@,
            planet_mass as int,
            ball_mass as int,
        );
        lemma_coords_le_den(position@);
        let qx = position@.x;
        let qy = position@.y;
        assert(0 <= qx * qx + qy * qy <= 1_500_000_000_000 * 1_500_000_000_000)
            by (nonlinear_arith)
            requires
                -1_000_000_000_000 <= qx <= 1_000_000_000_000 && -1_000_000_000_000 <= qy
                    <= 1_000_000_000_000,
        ;
        assert(norm2(position@) == qx * qx + qy * qy);
        lemma_isqrt_le(norm2(position@), 1_500_000_000_000);
    }
    let origin_point = Vec2::new(0, 0);
    let mut den: i64 = get_distance(&origin_point, *position);
    if den < 1 {
        den = 1;
    }
    let d: i128 = den as i128;
    let px: i128 = position.x as i128;
    let py: i128 = position.y as i128;
    let vx: i128 = velocity.x as i128;
    let vy: i128 = velocity.y as i128;
    let m1: i128 = planet_mass as i128;
    let m2: i128 = ball_mass as i128;
    proof {
        assert(absi(vx * px) <= 40_000_000_000_000_000_000_000_000_000 && absi(vy * py)
            <= 40_000_000_000_000_000_000_000_000_000 && absi(vx * py)
            <= 40_000_000_000_000_000_000_000_000_000 && absi(vy * px)
            <= 40_000_000_000_000_000_000_000_000_000 && absi(-(vx * px) - vy * py)
            <= 80_000_000_000_000_000_000_000_000_000 && absi(vx * py - vy * px)
            <= 80_000_000_000_000_000_000_000_000_000) by (nonlinear_arith)
            requires
                absi(px as int) <= 1_500_000_000_000 && absi(py as int) <= 1_500_000_000_000 && absi(vx as int)
                    <= 20_000_000_000_000_000 && absi(vy as int) <= 20_000_000_000_000_000 && (forall|
                    a: int,
                |
                    absi(a) == (if a >= 0 {
                        a
                    } else {
                        -a
                    })),
        ;
    }
    let u21: i128 = div_trunc(-(vx * px) - vy * py, d);
    let u22: i128 = div_trunc(vx * py - vy * px, d);
    proof {
        assert(absi((m1 - m2) * (u21 as int)) <= 80_000_000_000_000_000_000_000_000 && absi(
            -2 * m2 * (u21 as int),
        ) <= 80_000_000_000_000_000_000_000_000) by (nonlinear_arith)
            requires
                0 < m1 <= 1_000_000_000 && 0 < m2 <= 1_000_000_000 && absi(u21 as int)
                    <= 40_000_000_000_000_000 && (forall|a: int|
                    absi(a) == (if a >= 0 {
                        a
                    } else {
                        -a
                    })),
        ;
    }
    let v21: i128 = div_trunc((m1 - m2) * u21, m1 + m2);
    let v12: i128 = div_trunc(-2 * m2 * u21, m1 + m2);
    proof {
        assert(absi((u22 as int) * py) <= 150_000_000_000_000_000_000_000_000_000 && absi(
            (u22 as int) * px,
        ) <= 150_000_000_000_000_000_000_000_000_000 && absi((v21 as int) * px)
            <= 150_000_000_000_000_000_000_000_000_000 && absi((v21 as int) * py)
            <= 150_000_000_000_000_000_000_000_000_000 && absi(
            (u22 as int) * py + (v21 as int) * px,
        ) <= 300_000_000_000_000_000_000_000_000_000 && absi(
            -((u22 as int) * px) + (v21 as int) * py,
        ) <= 300_000_000_000_000_000_000_000_000_000 && absi((v12 as int) * px)
            <= 300_000_000_000_000_000_000_000_000_000 && absi((v12 as int) * py)
            <= 300_000_000_000_000_000_000_000_000_000) by (nonlinear_arith)
            requires
                absi(px as int) <= 1_500_000_000_000 && absi(py as int) <= 1_500_000_000_000 && absi(u22 as int)
                    <= 40_000_000_000_000_000 && absi(v21 as int) <= 40_000_000_000_000_000 && absi(
                    v12 as int,
                ) <= 80_000_000_000_000_000 && (forall|a: int|
                    absi(a) == (if a >= 0 {
                        a
                    } else {
                        -a
                    })),
        ;
    }
    let bvx: i128 = div_trunc(u22 * py + v21 * px, d);
    let bvy: i128 = div_trunc(-(u22 * px) + v21 * py, d);
    let pvx: i128 = div_trunc(v12 * px, d);
    let pvy: i128 = div_trunc(v12 * py, d);
    (Vec2::new(bvx as i64, bvy as i64), Vec2::new(pvx as i64, pvy as i64))
}

} // verus!
