use vstd::prelude::*;
use crate::num::{absi, div_trunc, lemma_tdiv_le_factor, tdiv};
use crate::vec2::{Vec2, V2, dist_spec, get_distance};
use crate::body::{Ball, BallModel, Config, MASS_LIMIT, POS_LIMIT, VEL_STEP_LIMIT};
use crate::gravity::{gravity_accel_spec, origin};
use crate::collision::{collision_response, collision_response_spec, planet_still};
use crate::trace::trace_tick_spec;
use vstd::arithmetic::div_mod::lemma_div_of0;

verus! {

/// One semi-implicit Euler step of the velocity: the acceleration scaled by
/// the per-tick integration factor.
pub open spec fn accelerate_spec(v: V2, a: V2, c: Config) -> V2 {
    V2 {
        x: v.x + tdiv(a.x * c.step_num, c.step_den as int),
        y: v.y + tdiv(a.y * c.step_num, c.step_den as int),
    }
}

/// One Euler step of the position: the velocity scaled by the per-tick
/// integration factor.
pub open spec fn integrate_spec(p: V2, v: V2, c: Config) -> V2 {
    V2 {
        x: p.x + tdiv(v.x * c.step_num, c.step_den as int),
        y: p.y + tdiv(v.y * c.step_num, c.step_den as int),
    }
}

/// The restitution damping applied to the velocity on impact.
pub open spec fn damp_spec(v: V2, c: Config) -> V2 {
    V2 {
        x: tdiv(v.x * c.restitution_num, c.restitution_den as int),
        y: tdiv(v.y * c.restitution_num, c.restitution_den as int),
    }
}

/// Whether this tick's position step carries the ball into the planet: the
/// collision check is made at the freshly integrated position.
pub open spec fn collides(b: BallModel, planet_radius: int, c: Config) -> bool {
    dist_spec(origin(), integrate_spec(b.position, b.velocity, c)) < planet_radius + b.radius
}

/// One full position/collision step of a projectile.  The trace counts the
/// tick first (recording the pre-step position); the position then advances
/// by one Euler step; if the new position penetrates the planet the step is
/// rolled back exactly, the velocity is damped by the restitution constant
/// and replaced by the elastic two-body response at the rolled-back
/// position.
pub open spec fn ball_velocity_step_spec(
    b: BallModel,
    planet_mass: int,
    planet_radius: int,
    c: Config,
) -> BallModel {
    let t = trace_tick_spec(b.trace, (b.position.x as i64, b.position.y as i64));
    if collides(b, planet_radius, c) {
        let out = collision_response_spec(b.position, damp_spec(b.velocity, c), planet_mass, b.mass);
        BallModel { velocity: out.ball_velocity, trace: t, ..b }
    } else {
        BallModel { position: integrate_spec(b.position, b.velocity, c), trace: t, ..b }
    }
}

/// The physics-integrity condition of a velocity step: if this tick
/// collides, the velocity the elastic formula assigns to the attractor must
/// round to zero — anything else is a modelling fault, which the model
/// rules out up front.
pub open spec fn velocity_step_ok(
    b: BallModel,
    planet_mass: int,
    planet_radius: int,
    c: Config,
) -> bool {
    collides(b, planet_radius, c) ==> planet_still(
        collision_response_spec(
            b.position,
            damp_spec(b.velocity, c),
            planet_mass,
            b.mass,
        ).planet_velocity,
    )
}

/// One gravity evaluation of a projectile: only the acceleration changes.
pub open spec fn ball_gravity_spec(b: BallModel, planet_mass: int, g: int) -> BallModel {
    BallModel { acceleration: gravity_accel_spec(b.position, planet_mass, g), ..b }
}

/// One velocity integration of a projectile: only the velocity changes.
pub open spec fn ball_accelerate_spec(b: BallModel, c: Config) -> BallModel {
    BallModel { velocity: accelerate_spec(b.velocity, b.acceleration, c), ..b }
}

/// One whole fixed tick of a projectile, in the pipeline order the
/// scheduler guarantees: gravity first, then the velocity update that uses
/// it, then the position step with its collision handling.
pub open spec fn ball_tick_spec(
    b: BallModel,
    planet_mass: int,
    planet_radius: int,
    g: int,
    c: Config,
) -> BallModel {
    ball_velocity_step_spec(
        ball_accelerate_spec(ball_gravity_spec(b, planet_mass, g), c),
        planet_mass,
        planet_radius,
        c,
    )
}

/// The integrity condition of a whole tick: the velocity step it ends with
/// must satisfy the stillness check.
pub open spec fn tick_ok(
    b: BallModel,
    planet_mass: int,
    planet_radius: int,
    g: int,
    c: Config,
) -> bool {
    velocity_step_ok(
        ball_accelerate_spec(ball_gravity_spec(b, planet_mass, g), c),
        planet_mass,
        planet_radius,
        c,
    )
}

/// The position/collision step, executed.  Mirrors `ball_velocity_step_spec`
/// exactly; the stillness condition is part of the contract, so a world
/// that violates the immobile-attractor model is rejected before the step,
/// never silently tolerated.
pub fn velocity_step(ball: &mut Ball, planet_mass: u64, planet_radius: i64, config: &Config)
    requires
        old(ball)@.wf(),
        config.wf(),
        0 < planet_mass <= MASS_LIMIT,
        0 < planet_radius <= POS_LIMIT,
        -POS_LIMIT <= old(ball).position.x <= POS_LIMIT,
        -POS_LIMIT <= old(ball).position.y <= POS_LIMIT,
        -VEL_STEP_LIMIT <= old(ball).velocity.x <= VEL_STEP_LIMIT,
        -VEL_STEP_LIMIT <= old(ball).velocity.y <= VEL_STEP_LIMIT,
        velocity_step_ok(old(ball)@, planet_mass as int, planet_radius as int, *config),
    ensures
        final(ball)@ == ball_velocity_step_spec(
            old(ball)@,
            planet_mass as int,
            planet_radius as int,
            *config,
        ),
        final(ball)@.wf(),
{
    let px = ball.position.x;
    let py = ball.position.y;
    ball.trace.record(px, py);
    proof {
        let vx = ball@.velocity.x;
        let vy = ball@.velocity.y;
        assert(absi(vx * config.step_num) <= absi(vx) * config.step_den && absi(
            vy * config.step_num,
        ) <= absi(vy) * config.step_den && absi(vx * config.step_num)
            <= 20_000_000_000_000_000_000_000 && absi(vy * config.step_num)
            <= 20_000_000_000_000_000_000_000) by (nonlinear_arith)
            requires
                0 < config.step_num <= config.step_den <= 1_000_000 && absi(vx)
                    <= 20_000_000_000_000_000 && absi(vy) <= 20_000_000_000_000_000 && (forall|
                    a: int,
                |
                    absi(a) == (if a >= 0 {
                        a
                    } else {
                        -a
                    })),
        ;
        lemma_tdiv_le_factor(vx * config.step_num, absi(vx), config.step_den as int);
        lemma_tdiv_le_factor(vy * config.step_num, absi(vy), config.step_den as int);
    }
    let dx = div_trunc(
        (ball.velocity.x as i128) * (config.step_num as i128),
        config.step_den as i128,
    ) as i64;
    let dy = div_trunc(
        (ball.velocity.y as i128) * (config.step_num as i128),
        config.step_den as i128,
    ) as i64;
    ball.position = Vec2::new(px + dx, py + dy);
    let origin_point = Vec2::new(0, 0);
    let distance = get_distance(&origin_point, ball.position);
    if distance < planet_radius + ball.radius {
        // roll the step back: the pre-step position, bit for bit
        ball.position = Vec2::new(px + dx - dx, py + dy - dy);
        proof {
            let vx = ball@.velocity.x;
            let vy = ball@.velocity.y;
            assert(absi(vx * config.restitution_num) <= absi(vx) * config.restitution_den && absi(
                vy * config.restitution_num,
            ) <= absi(vy) * config.restitution_den && absi(vx * config.restitution_num)
                <= 20_000_000_000_000_000_000_000 && absi(vy * config.restitution_num)
                <= 20_000_000_000_000_000_000_000) by (nonlinear_arith)
                requires
                    0 <= config.restitution_num <= config.restitution_den <= 1_000_000 && 0
                        < config.restitution_den && absi(vx) <= 20_000_000_000_000_000 && absi(vy)
                        <= 20_000_000_000_000_000 && (forall|a: int|
                        absi(a) == (if a >= 0 {
                            a
                        } else {
                            -a
                        })),
            ;
            lemma_tdiv_le_factor(
                vx * config.restitution_num,
                absi(vx),
                config.restitution_den as int,
            );
            lemma_tdiv_le_factor(
                vy * config.restitution_num,
                absi(vy),
                config.restitution_den as int,
            );
        }
        let rvx = div_trunc(
            (ball.velocity.x as i128) * (config.restitution_num as i128),
            config.restitution_den as i128,
        ) as i64;
        let rvy = div_trunc(
            (ball.velocity.y as i128) * (config.restitution_num as i128),
            config.restitution_den as i128,
        ) as i64;
        ball.velocity = Vec2::new(rvx, rvy);
        let response = collision_response(&ball.position, &ball.velocity, planet_mass, ball.mass);
        ball.velocity = response.0;
    }
}

/// Rollback exactness: whenever a step collides, the projectile ends the
/// step at exactly the position it started it, bit for bit — the applied
/// delta is undone before the velocity response.
pub proof fn lemma_collision_rollback(b: BallModel, planet_mass: int, planet_radius: int, c: Config)
    requires
        collides(b, planet_radius, c),
    ensures
        ball_velocity_step_spec(b, planet_mass, planet_radius, c).position == b.position,
{
}

/// A projectile at rest stays at rest: with zero velocity and zero
/// acceleration, one whole integration round (velocity update, then
/// position step with its collision handling) changes neither the position
/// nor the velocity nor the acceleration, whether or not the resting point
/// counts as colliding.
pub proof fn lemma_rest_is_fixed_point(b: BallModel, planet_mass: int, planet_radius: int, c: Config)
    requires
        b.velocity == (V2 { x: 0, y: 0 }),
        b.acceleration == (V2 { x: 0, y: 0 }),
        0 < c.step_num <= c.step_den,
        0 <= c.restitution_num <= c.restitution_den,
        0 < c.restitution_den,
        0 < planet_mass,
        0 < b.mass,
    ensures
        ({
            let after = ball_velocity_step_spec(ball_accelerate_spec(b, c), planet_mass, planet_radius, c);
            &&& after.position == b.position
            &&& after.velocity == b.velocity
            &&& after.acceleration == b.acceleration
        }),
{
    lemma_div_of0(c.step_den as int);
    lemma_div_of0(c.restitution_den as int);
    let b1 = ball_accelerate_spec(b, c);
    assert(b1.velocity == b.velocity);
    assert(integrate_spec(b1.position, b1.velocity, c) == b1.position);
    if collides(b1, planet_radius, c) {
        let vd = damp_spec(b1.velocity, c);
        assert(vd == (V2 { x: 0, y: 0 }));
        crate::collision::lemma_collision_response_bounds(b1.position, vd, planet_mass, b.mass);
        let out = collision_response_spec(b1.position, vd, planet_mass, b.mass);
        assert(absi(out.ball_velocity.x) <= 0 && absi(out.ball_velocity.y) <= 0);
        assert(out.ball_velocity == (V2 { x: 0, y: 0 }));
    }
}

/// A projectile at rest stays at rest for any number of integration rounds.
pub open spec fn integrate_n_rounds(
    b: BallModel,
    planet_mass: int,
    planet_radius: int,
    c: Config,
    n: nat,
) -> BallModel
    decreases n,
{
    if n == 0 {
        b
    } else {
        ball_velocity_step_spec(
            ball_accelerate_spec(
                integrate_n_rounds(b, planet_mass, planet_radius, c, (n - 1) as nat),
                c,
            ),
            planet_mass,
            planet_radius,
            c,
        )
    }
}

/// The fixed point holds for any number of ticks: a projectile with zero
/// velocity and zero acceleration never moves, however long it integrates.
pub proof fn lemma_rest_stays_forever(
    b: BallModel,
    planet_mass: int,
    planet_radius: int,
    c: Config,
    n: nat,
)
    requires
        b.velocity == (V2 { x: 0, y: 0 }),
        b.acceleration == (V2 { x: 0, y: 0 }),
        0 < c.step_num <= c.step_den,
        0 <= c.restitution_num <= c.restitution_den,
        0 < c.restitution_den,
        0 < planet_mass,
        0 < b.mass,
    ensures
        ({
            let after = integrate_n_rounds(b, planet_mass, planet_radius, c, n);
            &&& after.position == b.position
            &&& after.velocity == b.velocity
            &&& after.acceleration == b.acceleration
            &&& after.mass == b.mass
        }),
    decreases n,
{
    if n > 0 {
        lemma_rest_stays_forever(b, planet_mass, planet_radius, c, (n - 1) as nat);
        let prev = integrate_n_rounds(b, planet_mass, planet_radius, c, (n - 1) as nat);
        lemma_rest_is_fixed_point(prev, planet_mass, planet_radius, c);
    }
}

} // verus!
