use newton_cannon::body::{Ball, Config};
use newton_cannon::collision::collision_response;
use newton_cannon::gravity::gravity_acceleration;
use newton_cannon::motion::velocity_step;
use newton_cannon::num::{div_trunc, isqrt};
use newton_cannon::trace::Trace;
use newton_cannon::vec2::{get_distance, Vec2};

#[test]
fn isqrt_exact_values() {
    assert_eq!(isqrt(0), 0);
    assert_eq!(isqrt(1), 1);
    assert_eq!(isqrt(2), 1);
    assert_eq!(isqrt(15), 3);
    assert_eq!(isqrt(16), 4);
    assert_eq!(isqrt(24_999_999), 4_999);
    assert_eq!(isqrt(25_000_000), 5_000);
    assert_eq!(isqrt(u64::MAX as u128 * u64::MAX as u128), u64::MAX);
}

#[test]
fn div_trunc_rounds_toward_zero() {
    assert_eq!(div_trunc(7, 2), 3);
    assert_eq!(div_trunc(-7, 2), -3);
    assert_eq!(div_trunc(-1, 120), 0);
    assert_eq!(div_trunc(0, 120), 0);
}

#[test]
fn distance_of_pythagorean_triple() {
    let a = Vec2::new(0, 0);
    assert_eq!(get_distance(&a, Vec2::new(3000, 4000)), 5000);
    assert_eq!(get_distance(&a, Vec2::new(1, 1)), 1);
    assert_eq!(get_distance(&Vec2::new(-3000, 0), Vec2::new(0, 4000)), 5000);
    assert_eq!(get_distance(&a, a), 0);
}

// Gravity acceleration equals G * M / d^2 in magnitude, pointed at the
// origin: at (3, 4) units the distance is exactly 5 units, so the real
// acceleration is 6.67e6 / 25 = 266800 units along (-3/5, -4/5).
#[test]
fn gravity_is_inverse_square_toward_origin() {
    let a = gravity_acceleration(&Vec2::new(3000, 4000), 1_000_000, 6670);
    assert_eq!(a, Vec2::new(-160_080_000, -213_440_000));
    let b = gravity_acceleration(&Vec2::new(-3000, 4000), 1_000_000, 6670);
    assert_eq!(b, Vec2::new(160_080_000, -213_440_000));
}

// Below one unit of distance the formula is evaluated with the distance
// clamped to exactly one unit.
#[test]
fn gravity_clamps_distance_below_one_unit() {
    let a = gravity_acceleration(&Vec2::new(600, 0), 1_000_000, 6670);
    assert_eq!(a, Vec2::new(-4_002_000_000, 0));
    let b = gravity_acceleration(&Vec2::new(0, -300), 1_000_000, 6670);
    assert_eq!(b, Vec2::new(0, 2_001_000_000));
}

// A ball 200 units above the surface of the standard planet, with the
// gravitational constant at 0.667: the pull is straight down with magnitude
// 0.667e6 / 578.4^2, about 1.99 units.
#[test]
fn gravity_at_launch_height() {
    let a = gravity_acceleration(&Vec2::new(0, 378_400 + 200_000), 1_000_000, 667);
    assert_eq!(a, Vec2::new(0, -1_993));
}

// A ball falling straight down onto the planet with no horizontal motion:
// the step penetrates, is rolled back exactly, and the response sends the
// ball back up at the damped speed (0.7 * 50 = 35 units, within rounding).
#[test]
fn head_on_collision_reverses_damped_velocity() {
    let mut ball = Ball {
        position: Vec2::new(0, 385_901),
        velocity: Vec2::new(0, -50_000),
        acceleration: Vec2::new(0, 0),
        mass: 1,
        radius: 7_500,
        trace: Trace::new(10),
    };
    let config = Config::standard();
    velocity_step(&mut ball, 1_000_000, 378_400, &config);
    // rollback: the pre-step position, bit for bit
    assert_eq!(ball.position, Vec2::new(0, 385_901));
    // reversed, with the restitution applied before the elastic formula
    assert_eq!(ball.velocity, Vec2::new(0, 34_999));
    let speed = ball.velocity.y;
    assert!((35_000 - speed).abs() <= 1);
}

#[test]
fn collision_rollback_is_exact() {
    let mut ball = Ball {
        position: Vec2::new(0, 386_000),
        velocity: Vec2::new(0, -10_000),
        acceleration: Vec2::new(0, 0),
        mass: 1,
        radius: 7_500,
        trace: Trace::new(10),
    };
    let config = Config::standard();
    velocity_step(&mut ball, 1_000_000, 378_400, &config);
    assert_eq!(ball.position, Vec2::new(0, 386_000));
}

// A step that misses the planet integrates the position and keeps the
// velocity.
#[test]
fn free_step_integrates_position() {
    let mut ball = Ball {
        position: Vec2::new(0, 578_400),
        velocity: Vec2::new(250_000, 0),
        acceleration: Vec2::new(0, 0),
        mass: 1,
        radius: 7_500,
        trace: Trace::new(10),
    };
    let config = Config::standard();
    velocity_step(&mut ball, 1_000_000, 378_400, &config);
    // 250 units * 7/120 per tick = 14.583 units
    assert_eq!(ball.position, Vec2::new(14_583, 578_400));
    assert_eq!(ball.velocity, Vec2::new(250_000, 0));
}

// With the planet a million times heavier than the ball, the velocity the
// elastic formula assigns to the planet rounds to zero at two decimals.
#[test]
fn planet_velocity_is_negligible() {
    let (ball_v, planet_v) = collision_response(
        &Vec2::new(0, 385_901),
        &Vec2::new(0, -35_000),
        1_000_000,
        1,
    );
    assert_eq!(ball_v, Vec2::new(0, 34_999));
    assert!(planet_v.x.abs() < 10 && planet_v.y.abs() < 10);
    assert_eq!(planet_v, Vec2::new(0, 0));
}

// The same stillness holds on an oblique impact.
#[test]
fn planet_velocity_negligible_oblique() {
    let (_, planet_v) = collision_response(
        &Vec2::new(270_000, 270_000),
        &Vec2::new(-40_000, -30_000),
        1_000_000,
        1,
    );
    assert!(planet_v.x.abs() < 10 && planet_v.y.abs() < 10);
}
