use newton_cannon::body::{Ball, Config, NextBall, Planet};
use newton_cannon::trace::Trace;
use newton_cannon::vec2::Vec2;
use newton_cannon::world::{
    apply_acceleration, apply_velocity, attractor_integrity_holds, last_ball_state,
    next_ball_events, setup, tick, World,
};

fn world_with_ball(config: Config, ball: Ball) -> World {
    World {
        config,
        planet: Planet::new(1_000_000, 378_400),
        balls: vec![ball],
        next_ball: NextBall { speed: 35_000 },
    }
}

#[test]
fn setup_initial_state() {
    let w = setup(Config::standard());
    assert_eq!(w.planet.mass, 1_000_000);
    assert_eq!(w.planet.radius, 378_400);
    assert_eq!(w.planet.position, Vec2::new(0, 0));
    assert_eq!(w.balls.len(), 0);
    assert_eq!(w.next_ball.speed, 35_000);
    assert_eq!(w.config.g, 6_670);
}

#[test]
fn speed_adjusts_by_keypress() {
    let mut w = setup(Config::standard());
    next_ball_events(&mut w, false, true, false);
    assert_eq!(w.next_ball.speed, 36_000);
    next_ball_events(&mut w, true, false, false);
    assert_eq!(w.next_ball.speed, 35_000);
    next_ball_events(&mut w, true, true, false);
    assert_eq!(w.next_ball.speed, 35_000);
    assert_eq!(w.balls.len(), 0);
}

#[test]
fn fire_spawns_ball_and_raises_speed() {
    let mut w = setup(Config::standard());
    next_ball_events(&mut w, false, false, true);
    assert_eq!(w.balls.len(), 1);
    let ball = &w.balls[0];
    assert_eq!(ball.position, Vec2::new(60_000, 378_400 + 145_000));
    assert_eq!(ball.velocity, Vec2::new(35_000, 0));
    assert_eq!(ball.acceleration, Vec2::new(0, 0));
    assert_eq!(ball.mass, 1);
    assert_eq!(ball.radius, 7_500);
    assert!(ball.trace.last);
    assert_eq!(w.next_ball.speed, 50_000);
}

#[test]
fn second_fire_retires_old_trace() {
    let mut w = setup(Config::standard());
    next_ball_events(&mut w, false, false, true);
    next_ball_events(&mut w, false, false, true);
    assert_eq!(w.balls.len(), 2);
    assert!(!w.balls[0].trace.last);
    assert!(w.balls[0].trace.positions().is_empty());
    assert!(w.balls[1].trace.last);
    assert_eq!(w.balls[1].velocity, Vec2::new(50_000, 0));
    assert_eq!(w.next_ball.speed, 65_000);
}

#[test]
fn trace_records_every_fifth_tick() {
    let mut t = Trace::new(100);
    for i in 1..=10i64 {
        t.record(i, i);
    }
    assert_eq!(t.positions(), vec![(5, 5), (10, 10)]);
}

#[test]
fn trace_evicts_oldest_beyond_bound() {
    let mut t = Trace::new(2);
    for i in 1..=15i64 {
        t.record(i, i);
    }
    assert_eq!(t.positions(), vec![(10, 10), (15, 15)]);
}

#[test]
fn reset_trace_stops_recording() {
    let mut t = Trace::new(100);
    for i in 1..=5i64 {
        t.record(i, i);
    }
    assert_eq!(t.positions(), vec![(5, 5)]);
    t.reset();
    assert!(!t.last);
    assert!(t.positions().is_empty());
    for i in 6..=20i64 {
        t.record(i, i);
    }
    assert!(t.positions().is_empty());
}

// A projectile at rest with no acceleration never moves, however many
// integration rounds run.
#[test]
fn rest_is_a_fixed_point() {
    let ball = Ball {
        position: Vec2::new(500_000, 600_000),
        velocity: Vec2::new(0, 0),
        acceleration: Vec2::new(0, 0),
        mass: 1,
        radius: 7_500,
        trace: Trace::new(10),
    };
    let mut w = world_with_ball(Config::standard(), ball);
    for _ in 0..10 {
        apply_acceleration(&mut w);
        apply_velocity(&mut w);
    }
    assert_eq!(w.balls[0].position, Vec2::new(500_000, 600_000));
    assert_eq!(w.balls[0].velocity, Vec2::new(0, 0));
}

// The launch scenario: a ball 200 units above the surface moving flat at
// 250 units, with the gravitational constant at 0.667.  One tick leaves an
// acceleration of about 1.99 units pointed straight down, and the exact
// fixed-point state is pinned.
#[test]
fn launch_scenario_one_tick() {
    let config = Config {
        g: 667,
        step_num: 7,
        step_den: 120,
        restitution_num: 7,
        restitution_den: 10,
    };
    let ball = Ball {
        position: Vec2::new(0, 578_400),
        velocity: Vec2::new(250_000, 0),
        acceleration: Vec2::new(0, 0),
        mass: 1,
        radius: 7_500,
        trace: Trace::new(100),
    };
    let mut w = world_with_ball(config, ball);
    tick(&mut w);
    assert_eq!(w.balls[0].acceleration, Vec2::new(0, -1_993));
    assert_eq!(w.balls[0].velocity, Vec2::new(250_000, -116));
    assert_eq!(w.balls[0].position, Vec2::new(14_583, 578_394));
    // the attractor has not moved
    assert_eq!(w.planet.position, Vec2::new(0, 0));
    assert_eq!(w.planet.mass, 1_000_000);
}

// The immobile-attractor budget: ordinary launch speeds pass, a speed large
// enough to visibly push the planet on impact is refused.
#[test]
fn integrity_budget_detects_excess_speed() {
    let slow = Ball {
        position: Vec2::new(0, 578_400),
        velocity: Vec2::new(35_000, 0),
        acceleration: Vec2::new(0, 0),
        mass: 1,
        radius: 7_500,
        trace: Trace::new(10),
    };
    let w = world_with_ball(Config::standard(), slow);
    assert!(attractor_integrity_holds(&w));
    let fast = Ball {
        position: Vec2::new(0, 578_400),
        velocity: Vec2::new(3_000_000, 0),
        acceleration: Vec2::new(0, 0),
        mass: 1,
        radius: 7_500,
        trace: Trace::new(10),
    };
    let w = world_with_ball(Config::standard(), fast);
    assert!(!attractor_integrity_holds(&w));
}

#[test]
fn last_ball_state_reports_active_projectile() {
    let mut w = setup(Config::standard());
    assert!(last_ball_state(&w).is_none());
    next_ball_events(&mut w, false, false, true);
    let (velocity, acceleration) = last_ball_state(&w).unwrap();
    assert_eq!(velocity, Vec2::new(35_000, 0));
    assert_eq!(acceleration, Vec2::new(0, 0));
}

// A fired ball orbits: after many ticks under the standard constants it is
// still a positive distance from the planet and its trace has recorded
// positions.
#[test]
fn fired_ball_keeps_integrating() {
    let mut w = setup(Config::standard());
    next_ball_events(&mut w, false, false, true);
    for _ in 0..50 {
        tick(&mut w);
    }
    let trace_points = w.balls[0].trace.positions();
    assert_eq!(trace_points.len(), 10);
    // the ball has moved since launch, and the trace recorded it under way
    assert_ne!(w.balls[0].position, Vec2::new(60_000, 523_400));
    assert_ne!(trace_points[0], trace_points[9]);
}
