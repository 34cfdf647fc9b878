use vstd::prelude::*;
use crate::num::absi;
use crate::vec2::{Vec2, V2};
use crate::body::{
    Ball, BallModel, Config, NextBall, Planet, ACC_LIMIT, BALL_MASS, BALL_RADIUS, MASS_LIMIT,
    PLANET_MASS, PLANET_RADIUS, POS_LIMIT, VEL_LIMIT, within_acceleration_limit,
    within_position_limit, within_velocity_limit, within_velocity_step_limit,
};
use crate::gravity::gravity_acceleration;
use crate::motion::{
    ball_accelerate_spec, ball_gravity_spec, ball_tick_spec, ball_velocity_step_spec, damp_spec,
    tick_ok, velocity_step, velocity_step_ok,
};
use crate::collision::lemma_planet_velocity_negligible;
use crate::num::div_trunc;
use crate::num::lemma_tdiv_le_factor;
use crate::trace::{Trace, TraceModel};

verus! {

/// The launch speed the very first projectile gets.
pub const INITIAL_SPEED: i64 = 35_000;

/// How much one adjustment keypress changes the pending speed.
pub const SPEED_ADJUST: i64 = 1_000;

/// How much the pending speed grows after each launch.
pub const SPEED_INCREMENT: i64 = 15_000;

/// Where a new projectile appears: beside the tower, just above the surface.
pub const SPAWN_X: i64 = 60_000;

pub const SPAWN_HEIGHT: i64 = 145_000;

/// How many positions the active trace remembers.
pub const TRACE_BOUND: usize = 100;

/// The whole simulation: the tunable constants, the one immobile attractor,
/// the projectiles launched so far, and the pending launch speed.
pub struct World {
    pub config: Config,
    pub planet: Planet,
    pub balls: Vec<Ball>,
    pub next_ball: NextBall,
}

impl World {
    /// Validity of the whole world: constants and attractor well-formed,
    /// every projectile well-formed, and at most one projectile owns the
    /// recording trace.
    pub open spec fn wf(self) -> bool {
        &&& self.config.wf()
        &&& self.planet.wf()
        &&& forall|i: int|
            0 <= i < self.balls@.len() ==> (#[trigger] self.balls@[i])@.wf()
        &&& forall|i: int, j: int|
            0 <= i < self.balls@.len() && 0 <= j < self.balls@.len() && (#[trigger] self.balls@[i])@.trace.last
                && (#[trigger] self.balls@[j])@.trace.last ==> i == j
    }
}

/// The initial world: the planet at the origin with its mass and radius, no
/// projectiles yet, and the first launch speed pending.
pub fn setup(config: Config) -> (w: World)
    requires
        config.wf(),
    ensures
        w.config == config,
        w.planet.mass == PLANET_MASS,
        w.planet.radius == PLANET_RADIUS,
        w.balls@.len() == 0,
        w.next_ball.speed == INITIAL_SPEED,
        w.wf(),
{
    World {
        config,
        planet: Planet::new(PLANET_MASS, PLANET_RADIUS),
        balls: Vec::new(),
        next_ball: NextBall { speed: INITIAL_SPEED },
    }
}

/// The gravity pass of one tick: every projectile's acceleration is
/// recomputed from its current position; nothing else changes.
pub fn apply_gravity(world: &mut World)
    requires
        old(world).wf(),
        forall|i: int|
            0 <= i < old(world).balls@.len() ==> within_position_limit(
                (#[trigger] old(world).balls@[i])@,
            ),
    ensures
        final(world).wf(),
        final(world).config == old(world).config,
        final(world).planet == old(world).planet,
        final(world).next_ball == old(world).next_ball,
        final(world).balls@.len() == old(world).balls@.len(),
        forall|i: int|
            0 <= i < old(world).balls@.len() ==> (#[trigger] final(world).balls@[i])@
                == ball_gravity_spec(
                old(world).balls@[i]@,
                old(world).planet.mass as int,
                old(world).config.g as int,
            ),
        forall|i: int|
            0 <= i < old(world).balls@.len() ==> within_acceleration_limit(
                (#[trigger] final(world).balls@[i])@,
            ),
{
    let planet_mass = world.planet.mass;
    let g = world.config.g;
    let n = world.balls.len();
    let mut i: usize = 0;
    while i < n
        invariant
            n == world.balls@.len() == old(world).balls@.len(),
            i <= n,
            world.config == old(world).config,
            world.planet == old(world).planet,
            world.next_ball == old(world).next_ball,
            planet_mass == old(world).planet.mass,
            g == old(world).config.g,
            old(world).wf(),
            forall|j: int|
                0 <= j < old(world).balls@.len() ==> within_position_limit(
                    (#[trigger] old(world).balls@[j])@,
                ),
            forall|j: int|
                i <= j < n ==> #[trigger] world.balls@[j] == old(world).balls@[j],
            forall|j: int|
                0 <= j < i ==> (#[trigger] world.balls@[j])@ == ball_gravity_spec(
                    old(world).balls@[j]@,
                    old(world).planet.mass as int,
                    old(world).config.g as int,
                ),
            forall|j: int|
                0 <= j < i ==> within_acceleration_limit((#[trigger] world.balls@[j])@),
        decreases n - i,
    {
        let a = gravity_acceleration(&world.balls[i].position, planet_mass, g);
        world.balls[i].acceleration = a;
        i = i + 1;
    }
    proof {
        assert forall|i_: int| 0 <= i_ < world.balls@.len() implies (#[trigger] world.balls@[i_])@.wf()
            by {
            assert(world.balls@[i_]@ == ball_gravity_spec(
                old(world).balls@[i_]@,
                old(world).planet.mass as int,
                old(world).config.g as int,
            ));
        }
    }
}

/// The velocity pass of one tick: every projectile's velocity advances by
/// its acceleration scaled with the per-tick factor; nothing else changes.
pub fn apply_acceleration(world: &mut World)
    requires
        old(world).wf(),
        forall|i: int|
            0 <= i < old(world).balls@.len() ==> within_velocity_limit(
                (#[trigger] old(world).balls@[i])@,
            ) && within_acceleration_limit(old(world).balls@[i]@),
    ensures
        final(world).wf(),
        final(world).config == old(world).config,
        final(world).planet == old(world).planet,
        final(world).next_ball == old(world).next_ball,
        final(world).balls@.len() == old(world).balls@.len(),
        forall|i: int|
            0 <= i < old(world).balls@.len() ==> (#[trigger] final(world).balls@[i])@
                == ball_accelerate_spec(old(world).balls@[i]@, old(world).config),
        forall|i: int|
            0 <= i < old(world).balls@.len() ==> within_velocity_step_limit(
                (#[trigger] final(world).balls@[i])@,
            ),
{
    let num = world.config.step_num;
    let den = world.config.step_den;
    let n = world.balls.len();
    let mut i: usize = 0;
    while i < n
        invariant
            n == world.balls@.len() == old(world).balls@.len(),
            i <= n,
            world.config == old(world).config,
            world.planet == old(world).planet,
            world.next_ball == old(world).next_ball,
            num == old(world).config.step_num,
            den == old(world).config.step_den,
            old(world).wf(),
            forall|j: int|
                0 <= j < old(world).balls@.len() ==> within_velocity_limit(
                    (#[trigger] old(world).balls@[j])@,
                ) && within_acceleration_limit(old(world).balls@[j]@),
            forall|j: int|
                i <= j < n ==> #[trigger] world.balls@[j] == old(world).balls@[j],
            forall|j: int|
                0 <= j < i ==> (#[trigger] world.balls@[j])@ == ball_accelerate_spec(
                    old(world).balls@[j]@,
                    old(world).config,
                ),
            forall|j: int|
                0 <= j < i ==> within_velocity_step_limit((#[trigger] world.balls@[j])@),
        decreases n - i,
    {
        let ax = world.balls[i].acceleration.x;
        let ay = world.balls[i].acceleration.y;
        proof {
            assert(absi(ax as int * num) <= absi(ax as int) * den && absi(ay as int * num) <= absi(
                ay as int,
            ) * den && absi(ax as int * num) <= 10_000_000_000_000_000_000_000 && absi(
                ay as int * num,
            ) <= 10_000_000_000_000_000_000_000) by (nonlinear_arith)
                requires
                    0 < num <= den <= 1_000_000 && absi(ax as int) <= 10_000_000_000_000_000
                        && absi(ay as int) <= 10_000_000_000_000_000 && (forall|a: int|
                        absi(a) == (if a >= 0 {
                            a
                        } else {
                            -a
                        })),
            ;
            lemma_tdiv_le_factor(ax as int * num, absi(ax as int), den as int);
            lemma_tdiv_le_factor(ay as int * num, absi(ay as int), den as int);
        }
        let dvx = div_trunc((ax as i128) * (num as i128), den as i128) as i64;
        let dvy = div_trunc((ay as i128) * (num as i128), den as i128) as i64;
        let vx = world.balls[i].velocity.x;
        let vy = world.balls[i].velocity.y;
        world.balls[i].velocity = Vec2::new(vx + dvx, vy + dvy);
        i = i + 1;
    }
    proof {
        assert forall|i_: int| 0 <= i_ < world.balls@.len() implies (#[trigger] world.balls@[i_])@.wf()
            by {
            assert(world.balls@[i_]@ == ball_accelerate_spec(
                old(world).balls@[i_]@,
                old(world).config,
            ));
        }
    }
}

/// The position pass of one tick: every projectile's trace counts the tick,
/// the position advances one Euler step, and a step into the planet is
/// rolled back and answered with the collision response.
pub fn apply_velocity(world: &mut World)
    requires
        old(world).wf(),
        forall|i: int|
            0 <= i < old(world).balls@.len() ==> within_position_limit(
                (#[trigger] old(world).balls@[i])@,
            ) && within_velocity_step_limit(old(world).balls@[i]@),
        forall|i: int|
            0 <= i < old(world).balls@.len() ==> velocity_step_ok(
                (#[trigger] old(world).balls@[i])@,
                old(world).planet.mass as int,
                old(world).planet.radius as int,
                old(world).config,
            ),
    ensures
        final(world).wf(),
        final(world).config == old(world).config,
        final(world).planet == old(world).planet,
        final(world).next_ball == old(world).next_ball,
        final(world).balls@.len() == old(world).balls@.len(),
        forall|i: int|
            0 <= i < old(world).balls@.len() ==> (#[trigger] final(world).balls@[i])@
                == ball_velocity_step_spec(
                old(world).balls@[i]@,
                old(world).planet.mass as int,
                old(world).planet.radius as int,
                old(world).config,
            ),
{
    let planet_mass = world.planet.mass;
    let planet_radius = world.planet.radius;
    let config = world.config;
    let n = world.balls.len();
    let mut i: usize = 0;
    while i < n
        invariant
            n == world.balls@.len() == old(world).balls@.len(),
            i <= n,
            world.config == old(world).config,
            world.planet == old(world).planet,
            world.next_ball == old(world).next_ball,
            planet_mass == old(world).planet.mass,
            planet_radius == old(world).planet.radius,
            config == old(world).config,
            old(world).wf(),
            forall|j: int|
                0 <= j < old(world).balls@.len() ==> within_position_limit(
                    (#[trigger] old(world).balls@[j])@,
                ) && within_velocity_step_limit(old(world).balls@[j]@),
            forall|j: int|
                0 <= j < old(world).balls@.len() ==> velocity_step_ok(
                    (#[trigger] old(world).balls@[j])@,
                    old(world).planet.mass as int,
                    old(world).planet.radius as int,
                    old(world).config,
                ),
            forall|j: int|
                i <= j < n ==> #[trigger] world.balls@[j] == old(world).balls@[j],
            forall|j: int|
                0 <= j < i ==> (#[trigger] world.balls@[j])@ == ball_velocity_step_spec(
                    old(world).balls@[j]@,
                    old(world).planet.mass as int,
                    old(world).planet.radius as int,
                    old(world).config,
                ),
        decreases n - i,
    {
        velocity_step(&mut world.balls[i], planet_mass, planet_radius, &config);
        i = i + 1;
    }
    proof {
        assert forall|i_: int| 0 <= i_ < world.balls@.len() implies (#[trigger] world.balls@[i_])@.wf()
            by {
            assert(world.balls@[i_]@ == ball_velocity_step_spec(
                old(world).balls@[i_]@,
                old(world).planet.mass as int,
                old(world).planet.radius as int,
                old(world).config,
            ));
        }
        assert forall|i_: int, j_: int|
            0 <= i_ < world.balls@.len() && 0 <= j_ < world.balls@.len() && (
            #[trigger] world.balls@[i_])@.trace.last && (#[trigger] world.balls@[j_])@.trace.last
            implies i_ == j_ by {
            assert(world.balls@[i_]@ == ball_velocity_step_spec(
                old(world).balls@[i_]@,
                old(world).planet.mass as int,
                old(world).planet.radius as int,
                old(world).config,
            ));
            assert(world.balls@[j_]@ == ball_velocity_step_spec(
                old(world).balls@[j_]@,
                old(world).planet.mass as int,
                old(world).planet.radius as int,
                old(world).config,
            ));
            assert(old(world).balls@[i_]@.trace.last && old(world).balls@[j_]@.trace.last);
        }
    }
}

/// One whole fixed tick, in the order the scheduler guarantees: gravity
/// before the velocity update that consumes it, the velocity update before
/// the position step.
pub fn tick(world: &mut World)
    requires
        old(world).wf(),
        forall|i: int|
            0 <= i < old(world).balls@.len() ==> within_position_limit(
                (#[trigger] old(world).balls@[i])@,
            ) && within_velocity_limit(old(world).balls@[i]@),
        forall|i: int|
            0 <= i < old(world).balls@.len() ==> tick_ok(
                (#[trigger] old(world).balls@[i])@,
                old(world).planet.mass as int,
                old(world).planet.radius as int,
                old(world).config.g as int,
                old(world).config,
            ),
    ensures
        final(world).wf(),
        final(world).config == old(world).config,
        final(world).planet == old(world).planet,
        final(world).next_ball == old(world).next_ball,
        final(world).balls@.len() == old(world).balls@.len(),
        forall|i: int|
            0 <= i < old(world).balls@.len() ==> (#[trigger] final(world).balls@[i])@
                == ball_tick_spec(
                old(world).balls@[i]@,
                old(world).planet.mass as int,
                old(world).planet.radius as int,
                old(world).config.g as int,
                old(world).config,
            ),
{
    apply_gravity(world);
    apply_acceleration(world);
    apply_velocity(world);
}

/// The launch controller, fed one tick's worth of already-decoded input:
/// whether the decrease and increase keys are held and whether the fire key
/// was just pressed.  Adjusts the pending speed, and on fire retires every
/// old trace, spawns a projectile beside the tower with the pending speed
/// aimed flat, and raises the pending speed for next time.
pub fn next_ball_events(world: &mut World, decrease: bool, increase: bool, fire: bool)
    requires
        old(world).wf(),
        -VEL_LIMIT <= old(world).next_ball.speed <= VEL_LIMIT,
    ensures
        final(world).wf(),
        final(world).config == old(world).config,
        final(world).planet == old(world).planet,
        ({
            let adjusted = old(world).next_ball.speed - (if decrease {
                SPEED_ADJUST as int
            } else {
                0int
            }) + (if increase {
                SPEED_ADJUST as int
            } else {
                0int
            });
            if fire {
                &&& final(world).next_ball.speed == adjusted + SPEED_INCREMENT
                &&& final(world).balls@.len() == old(world).balls@.len() + 1
                &&& forall|i: int|
                    0 <= i < old(world).balls@.len() ==> (#[trigger] final(world).balls@[i])@
                        == (BallModel {
                        trace: TraceModel {
                            positions: Seq::<(i64, i64)>::empty(),
                            bound: 1,
                            counter: old(world).balls@[i]@.trace.counter,
                            last: false,
                        },
                        ..old(world).balls@[i]@
                    })
                &&& final(world).balls@.last()@ == (BallModel {
                    position: V2 {
                        x: SPAWN_X as int,
                        y: old(world).planet.radius + SPAWN_HEIGHT,
                    },
                    velocity: V2 { x: adjusted, y: 0 },
                    acceleration: V2 { x: 0, y: 0 },
                    mass: BALL_MASS as int,
                    radius: BALL_RADIUS as int,
                    trace: TraceModel {
                        positions: Seq::<(i64, i64)>::empty(),
                        bound: TRACE_BOUND as nat,
                        counter: 0,
                        last: true,
                    },
                })
            } else {
                &&& final(world).next_ball.speed == adjusted
                &&& final(world).balls@ == old(world).balls@
            }
        }),
{
    if decrease {
        world.next_ball.speed = world.next_ball.speed - SPEED_ADJUST;
    }
    if increase {
        world.next_ball.speed = world.next_ball.speed + SPEED_ADJUST;
    }
    if fire {
        let n = world.balls.len();
        let mut i: usize = 0;
        while i < n
            invariant
                n == world.balls@.len() == old(world).balls@.len(),
                i <= n,
                world.config == old(world).config,
                world.planet == old(world).planet,
                world.next_ball.speed == old(world).next_ball.speed - (if decrease {
                    SPEED_ADJUST as int
                } else {
                    0int
                }) + (if increase {
                    SPEED_ADJUST as int
                } else {
                    0int
                }),
                -VEL_LIMIT - SPEED_ADJUST <= world.next_ball.speed <= VEL_LIMIT + SPEED_ADJUST,
                old(world).wf(),
                forall|j: int|
                    i <= j < n ==> #[trigger] world.balls@[j] == old(world).balls@[j],
                forall|j: int|
                    0 <= j < i ==> (#[trigger] world.balls@[j])@ == (BallModel {
                        trace: TraceModel {
                            positions: Seq::<(i64, i64)>::empty(),
                            bound: 1,
                            counter: old(world).balls@[j]@.trace.counter,
                            last: false,
                        },
                        ..old(world).balls@[j]@
                    }),
            decreases n - i,
        {
            world.balls[i].trace.reset();
            i = i + 1;
        }
        let spawn_y = world.planet.radius + SPAWN_HEIGHT;
        let speed = world.next_ball.speed;
        let ball = Ball {
            position: Vec2::new(SPAWN_X, spawn_y),
            velocity: Vec2::new(speed, 0),
            acceleration: Vec2::new(0, 0),
            mass: BALL_MASS,
            radius: BALL_RADIUS,
            trace: Trace::new(TRACE_BOUND),
        };
        world.balls.push(ball);
        world.next_ball.speed = world.next_ball.speed + SPEED_INCREMENT;
    }
}

/// A runtime check of the immobile-attractor budget: every ball's speed is
/// small enough, against the mass ratio, that a collision this tick would
/// leave the planet still.  A `true` establishes the integrity
/// precondition of `apply_velocity` for every projectile, by
/// `lemma_planet_velocity_negligible`.
pub fn attractor_integrity_holds(world: &World) -> (r: bool)
    requires
        world.wf(),
    ensures
        r == (forall|i: int|
            0 <= i < world.balls@.len() ==> 2 * (#[trigger] world.balls@[i])@.mass * (absi(
                world.balls@[i]@.velocity.x,
            ) + absi(world.balls@[i]@.velocity.y)) < 5 * (world.planet.mass
                + world.balls@[i]@.mass)),
        r ==> forall|i: int|
            0 <= i < world.balls@.len() ==> velocity_step_ok(
                (#[trigger] world.balls@[i])@,
                world.planet.mass as int,
                world.planet.radius as int,
                world.config,
            ),
{
    let m1 = world.planet.mass as i128;
    let n = world.balls.len();
    let mut i: usize = 0;
    while i < n
        invariant
            n == world.balls@.len(),
            i <= n,
            world.wf(),
            m1 == world.planet.mass as i128,
            forall|j: int|
                0 <= j < i ==> velocity_step_ok(
                    (#[trigger] world.balls@[j])@,
                    world.planet.mass as int,
                    world.planet.radius as int,
                    world.config,
                ),
            forall|j: int|
                0 <= j < i ==> 2 * (#[trigger] world.balls@[j])@.mass * (absi(
                    world.balls@[j]@.velocity.x,
                ) + absi(world.balls@[j]@.velocity.y)) < 5 * (world.planet.mass
                    + world.balls@[j]@.mass),
        decreases n - i,
    {
        let vx = world.balls[i].velocity.x as i128;
        let vy = world.balls[i].velocity.y as i128;
        let ax = if vx < 0 {
            -vx
        } else {
            vx
        };
        let ay = if vy < 0 {
            -vy
        } else {
            vy
        };
        let m2 = world.balls[i].mass as i128;
        proof {
            assert(2 * m2 * (ax + ay) <= 4_000_000_000i128 * 40_000_000_000_000_000_000)
                by (nonlinear_arith)
                requires
                    0 < m2 <= 1_000_000_000 && 0 <= ax + ay <= 40_000_000_000_000_000_000,
            ;
        }
        if !(2 * m2 * (ax + ay) < 5 * (m1 + m2)) {
            return false;
        }
        proof {
            let bm = world.balls@[i as int]@;
            let c = world.config;
            let vd = damp_spec(bm.velocity, c);
            assert(absi(bm.velocity.x * c.restitution_num) <= absi(bm.velocity.x)
                * c.restitution_den && absi(bm.velocity.y * c.restitution_num) <= absi(
                bm.velocity.y,
            ) * c.restitution_den) by (nonlinear_arith)
                requires
                    0 <= c.restitution_num <= c.restitution_den && 0 < c.restitution_den && (
                    forall|a: int|
                        absi(a) == (if a >= 0 {
                            a
                        } else {
                            -a
                        })),
            ;
            lemma_tdiv_le_factor(
                bm.velocity.x * c.restitution_num,
                absi(bm.velocity.x),
                c.restitution_den as int,
            );
            lemma_tdiv_le_factor(
                bm.velocity.y * c.restitution_num,
                absi(bm.velocity.y),
                c.restitution_den as int,
            );
            assert(2 * bm.mass * (absi(vd.x) + absi(vd.y)) < 5 * (m1 + bm.mass))
                by (nonlinear_arith)
                requires
                    0 < bm.mass && absi(vd.x) <= absi(bm.velocity.x) && absi(vd.y) <= absi(
                        bm.velocity.y,
                    ) && absi(vd.x) >= 0 && absi(vd.y) >= 0 && 2 * bm.mass * (absi(bm.velocity.x)
                        + absi(bm.velocity.y)) < 5 * (m1 + bm.mass),
            ;
            lemma_planet_velocity_negligible(bm.position, vd, m1 as int, bm.mass);
        }
        i = i + 1;
    }
    true
}

/// What the on-screen readout shows of the most recent launch: the velocity
/// and acceleration of the projectile whose trace is active, if any.
pub fn last_ball_state(world: &World) -> (r: Option<(Vec2, Vec2)>)
    ensures
        match r {
            Some(va) => exists|i: int|
                0 <= i < world.balls@.len() && (#[trigger] world.balls@[i])@.trace.last
                    && va.0 == world.balls@[i].velocity && va.1 == world.balls@[i].acceleration,
            None => forall|i: int|
                0 <= i < world.balls@.len() ==> !(#[trigger] world.balls@[i])@.trace.last,
        },
{
    let n = world.balls.len();
    let mut i: usize = 0;
    while i < n
        invariant
            n == world.balls@.len(),
            i <= n,
            forall|j: int| 0 <= j < i ==> !(#[trigger] world.balls@[j])@.trace.last,
        decreases n - i,
    {
        if world.balls[i].trace.last {
            return Some((world.balls[i].velocity, world.balls[i].acceleration));
        }
        i = i + 1;
    }
    None
}

} // verus!
