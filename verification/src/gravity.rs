use vstd::prelude::*;
use crate::num::{SCALE, absi, div_trunc, lemma_tdiv_abs, lemma_tdiv_cancel, tdiv};
use crate::vec2::{Vec2, V2, dist_spec, get_distance, lemma_coord_le_dist, lemma_isqrt_le, norm2};
use crate::body::{ACC_LIMIT, G_LIMIT, MASS_LIMIT, POS_LIMIT};
use vstd::arithmetic::div_mod::{
    lemma_div_is_ordered, lemma_div_is_ordered_by_denominator, lemma_div_multiples_vanish,
};
use vstd::arithmetic::mul::lemma_mul_inequality;

verus! {

pub open spec fn origin() -> V2 {
    V2 { x: 0, y: 0 }
}

/// The distance from the origin, clamped to at least one world unit to
/// avoid the singularity at the attractor's centre.
pub open spec fn clamped_dist(p: V2) -> int {
    let d = dist_spec(origin(), p);
    if d < SCALE {
        SCALE as int
    } else {
        d
    }
}

/// Gravitational acceleration at `p`: the inverse-square force of the
/// planet, `G * M / d^2` in magnitude, directed from `p` toward the origin.
/// The projectile's own mass multiplies the force and divides the
/// acceleration, cancelling exactly (`lemma_gravity_force_over_mass`), so
/// the spec is stated without it; one truncating division is applied per
/// component.
pub open spec fn gravity_accel_spec(p: V2, planet_mass: int, g: int) -> V2 {
    let d = clamped_dist(p);
    V2 {
        x: tdiv(g * planet_mass * SCALE * SCALE * (-p.x), d * d * d),
        y: tdiv(g * planet_mass * SCALE * SCALE * (-p.y), d * d * d),
    }
}

/// Magnitude bound for one acceleration component: a coordinate never
/// exceeds the (clamped) distance, so the component never exceeds
/// `G_LIMIT * MASS_LIMIT`.
proof fn lemma_gravity_component_bound(k: int, c: int, d: int)
    requires
        0 <= k <= G_LIMIT * MASS_LIMIT * SCALE * SCALE,
        absi(c) <= d,
        SCALE <= d,
    ensures
        absi(tdiv(k * (-c), d * d * d)) <= ACC_LIMIT,
{
    assert(d * d * d > 0 && d * d >= SCALE * SCALE) by (nonlinear_arith)
        requires
            d >= SCALE && SCALE == 1000,
    ;
    assert(absi(k * (-c)) == k * absi(c)) by (nonlinear_arith)
        requires
            k >= 0 && absi(c) == (if c >= 0 { c } else { -c }) && absi(k * (-c)) == (if k * (-c)
                >= 0 {
                k * (-c)
            } else {
                -(k * (-c))
            }),
    ;
    lemma_tdiv_abs(k * (-c), d * d * d);
    lemma_mul_inequality(absi(c), d, k);
    assert(k * absi(c) == absi(c) * k && k * d == d * k) by (nonlinear_arith);
    lemma_div_is_ordered(k * absi(c), k * d, d * d * d);
    lemma_tdiv_cancel(k, d * d, d);
    assert(tdiv(k * d, (d * d) * d) == tdiv(k, d * d));
    assert((d * d) * d == d * d * d);
    lemma_div_is_ordered_by_denominator(k, SCALE * SCALE, d * d);
    lemma_div_is_ordered(k, G_LIMIT * MASS_LIMIT * SCALE * SCALE, SCALE * SCALE);
    lemma_div_multiples_vanish(ACC_LIMIT as int, SCALE * SCALE);
    assert((SCALE * SCALE) * ACC_LIMIT == G_LIMIT * MASS_LIMIT * SCALE * SCALE)
        by (nonlinear_arith)
        requires
            SCALE == 1000 && ACC_LIMIT == 10_000_000_000_000_000 && G_LIMIT == 10_000_000
                && MASS_LIMIT == 1_000_000_000,
    ;
}

/// The per-tick gravity evaluation for one projectile: Euclidean distance
/// to the origin, clamped to one unit; inverse-square force; acceleration
/// along the unit vector toward the origin.
pub fn gravity_acceleration(position: &Vec2, planet_mass: u64, g: i64) -> (a: Vec2)
    requires
        -POS_LIMIT <= position.x <= POS_LIMIT,
        -POS_LIMIT <= position.y <= POS_LIMIT,
        0 < planet_mass <= MASS_LIMIT,
        0 < g <= G_LIMIT,
    ensures
        a@ == gravity_accel_spec(position@, planet_mass as int, g as int),
        absi(a@.x) <= ACC_LIMIT,
        absi(a@.y) <= ACC_LIMIT,
{
    let origin_point = Vec2::new(0, 0);
    let mut distance: i64 = get_distance(&origin_point, *position);
    proof {
        let px = position@.x;
        let py = position@.y;
        assert(0 <= px * px + py * py <= 1_500_000_000_000 * 1_500_000_000_000)
            by (nonlinear_arith)
            requires
                -1_000_000_000_000 <= px <= 1_000_000_000_000 && -1_000_000_000_000 <= py
                    <= 1_000_000_000_000,
        ;
        assert(norm2(position@) == px * px + py * py);
        lemma_isqrt_le(norm2(position@), 1_500_000_000_000);
        lemma_coord_le_dist(position@);
    }
    if distance < SCALE {
        distance = SCALE;
    }
    let d: i128 = distance as i128;
    proof {
        assert(0 < d * d * d <= 1_500_000_000_000i128 * 1_500_000_000_000 * 1_500_000_000_000
            && d * d <= 1_500_000_000_000i128 * 1_500_000_000_000) by (nonlinear_arith)
            requires
                1000 <= d <= 1_500_000_000_000,
        ;
        let gm = (g as int) * (planet_mass as int);
        assert(0 < gm <= 10_000_000_000_000_000 && 0 < gm * 1000 <= 10_000_000_000_000_000_000
            && 0 < gm * 1000 * 1000 <= 10_000_000_000_000_000_000_000) by (nonlinear_arith)
            requires
                gm == (g as int) * (planet_mass as int) && 0 < g <= 10_000_000 && 0 < planet_mass
                    <= 1_000_000_000,
        ;
    }
    let d3: i128 = d * d * d;
    let k: i128 = (g as i128) * (planet_mass as i128) * (SCALE as i128) * (SCALE as i128);
    proof {
        assert(absi(k as int * (-(position@.x))) <= k * 1_000_000_000_000 && absi(
            k as int * (-(position@.y)),
        ) <= k * 1_000_000_000_000 && k * 1_000_000_000_000
            <= 10_000_000_000_000_000_000_000i128 * 1_000_000_000_000) by (nonlinear_arith)
            requires
                0 < k <= 10_000_000_000_000_000_000_000 && -1_000_000_000_000 <= position@.x
                    <= 1_000_000_000_000 && -1_000_000_000_000 <= position@.y
                    <= 1_000_000_000_000 && (forall|v: int| absi(v) == (if v >= 0 {
                    v
                } else {
                    -v
                })),
        ;
    }
    let ax: i128 = div_trunc(k * (-(position.x as i128)), d3);
    let ay: i128 = div_trunc(k * (-(position.y as i128)), d3);
    proof {
        lemma_gravity_component_bound(k as int, position@.x, d as int);
        lemma_gravity_component_bound(k as int, position@.y, d as int);
        lemma_tdiv_abs(k as int * (-(position@.x)), d3 as int);
        lemma_tdiv_abs(k as int * (-(position@.y)), d3 as int);
    }
    Vec2::new(ax as i64, ay as i64)
}

/// The acceleration is exactly the inverse-square force on the ball,
/// `F = G * m_planet * m_ball / d^2`, along the unit vector toward the
/// origin, divided by the ball's own mass: the mass cancels out of the
/// truncating quotient, and each component opposes the matching coordinate,
/// so the pull points toward the origin.  Stated for unclamped distances of
/// at least one world unit.
pub proof fn lemma_gravity_force_over_mass(p: V2, planet_mass: int, ball_mass: int, g: int)
    requires
        0 < planet_mass,
        0 < ball_mass,
        0 < g,
        dist_spec(origin(), p) >= SCALE,
    ensures
        ({
            let d = dist_spec(origin(), p);
            let a = gravity_accel_spec(p, planet_mass, g);
            &&& clamped_dist(p) == d
            &&& a.x == tdiv(
                g * (planet_mass * ball_mass) * SCALE * SCALE * (-p.x),
                (d * d * d) * ball_mass,
            )
            &&& a.y == tdiv(
                g * (planet_mass * ball_mass) * SCALE * SCALE * (-p.y),
                (d * d * d) * ball_mass,
            )
            &&& (p.x > 0 ==> a.x <= 0) && (p.x < 0 ==> a.x >= 0)
            &&& (p.y > 0 ==> a.y <= 0) && (p.y < 0 ==> a.y >= 0)
        }),
{
    let d = dist_spec(origin(), p);
    let k = g * planet_mass * SCALE * SCALE;
    assert(d * d * d > 0) by (nonlinear_arith)
        requires
            d >= SCALE && SCALE == 1000,
    ;
    assert(k > 0) by (nonlinear_arith)
        requires
            k == g * planet_mass * SCALE * SCALE && g > 0 && planet_mass > 0 && SCALE == 1000,
    ;
    lemma_tdiv_cancel(k * (-p.x), d * d * d, ball_mass);
    lemma_tdiv_cancel(k * (-p.y), d * d * d, ball_mass);
    assert((k * (-p.x)) * ball_mass == g * (planet_mass * ball_mass) * SCALE * SCALE * (-p.x) && (k
        * (-p.y)) * ball_mass == g * (planet_mass * ball_mass) * SCALE * SCALE * (-p.y))
        by (nonlinear_arith)
        requires
            k == g * planet_mass * SCALE * SCALE,
    ;
    lemma_tdiv_abs(k * (-p.x), d * d * d);
    lemma_tdiv_abs(k * (-p.y), d * d * d);
    assert((p.x > 0 ==> k * (-p.x) <= 0) && (p.x < 0 ==> k * (-p.x) >= 0) && (p.y > 0 ==> k * (
    -p.y) <= 0) && (p.y < 0 ==> k * (-p.y) >= 0)) by (nonlinear_arith)
        requires
            k > 0,
    ;
}

/// Clamp idempotence: anywhere within one world unit of the origin the
/// acceleration is exactly the value the formula gives at distance one.
pub proof fn lemma_gravity_clamp(p: V2, planet_mass: int, g: int)
    requires
        dist_spec(origin(), p) < SCALE,
    ensures
        clamped_dist(p) == SCALE,
        gravity_accel_spec(p, planet_mass, g) == (V2 {
            x: tdiv(g * planet_mass * SCALE * SCALE * (-p.x), SCALE * SCALE * SCALE),
            y: tdiv(g * planet_mass * SCALE * SCALE * (-p.y), SCALE * SCALE * SCALE),
        }),
{
}

} // verus!
