use vstd::prelude::*;
use crate::vec2::{Vec2, V2};
use crate::trace::{Trace, TraceModel};
use crate::num::SCALE;

verus! {

/// Gravitational constant of the toy universe, scaled like everything else.
pub const GRAVITATIONAL_CONSTANT: i64 = 6670;

/// Fraction of the velocity that survives an impact, before the elastic
/// redistribution: seven tenths.
pub const RESTITUTION_NUM: i64 = 7;

pub const RESTITUTION_DEN: i64 = 10;

/// The integration factor per fixed tick: the timestep (one sixtieth of a
/// second) times the speed-up constant (three and a half), as a fraction.
pub const STEP_NUM: i64 = 7;

pub const STEP_DEN: i64 = 120;

pub const PLANET_RADIUS: i64 = 378_400;

pub const PLANET_MASS: u64 = 1_000_000;

pub const BALL_RADIUS: i64 = 7_500;

pub const BALL_MASS: u64 = 1;

/// Upper bounds that keep every intermediate product of the fixed-point
/// pipeline inside the wide integer type.
pub const G_LIMIT: i64 = 10_000_000;

pub const MASS_LIMIT: u64 = 1_000_000_000;

pub const POS_LIMIT: i64 = 1_000_000_000_000;

pub const VEL_LIMIT: i64 = 10_000_000_000_000_000;

pub const ACC_LIMIT: i64 = 10_000_000_000_000_000;

pub const DEN_LIMIT: i64 = 1_000_000;

/// A velocity magnitude bound that still holds after one acceleration has
/// been applied to a velocity within `VEL_LIMIT`.
pub const VEL_STEP_LIMIT: i64 = VEL_LIMIT + ACC_LIMIT;

/// The tunable constants of the simulation.
#[derive(Clone, Copy, PartialEq, Eq, Structural, Debug)]
pub struct Config {
    /// Gravitational constant, scaled.
    pub g: i64,
    /// Integration factor per tick, as a fraction.
    pub step_num: i64,
    pub step_den: i64,
    /// Velocity fraction kept on impact, in [0, 1].
    pub restitution_num: i64,
    pub restitution_den: i64,
}

impl Config {
    pub open spec fn wf(self) -> bool {
        &&& 0 < self.g <= G_LIMIT
        &&& 0 < self.step_num <= self.step_den <= DEN_LIMIT
        &&& 0 <= self.restitution_num <= self.restitution_den <= DEN_LIMIT
        &&& 0 < self.restitution_den
    }

    /// The stock constants of the toy: G = 6.67, a 0.7 restitution and a
    /// 3.5-times-sped-up sixtieth-of-a-second timestep.
    pub fn standard() -> (c: Config)
        ensures
            c == (Config {
                g: GRAVITATIONAL_CONSTANT,
                step_num: STEP_NUM,
                step_den: STEP_DEN,
                restitution_num: RESTITUTION_NUM,
                restitution_den: RESTITUTION_DEN,
            }),
            c.wf(),
    {
        Config {
            g: GRAVITATIONAL_CONSTANT,
            step_num: STEP_NUM,
            step_den: STEP_DEN,
            restitution_num: RESTITUTION_NUM,
            restitution_den: RESTITUTION_DEN,
        }
    }
}

/// The single immobile attractor, fixed at the origin.
pub struct Planet {
    pub mass: u64,
    pub radius: i64,
    pub position: Vec2,
}

impl Planet {
    /// The planet sits at the origin and never moves; its mass and radius
    /// are strictly positive and bounded.
    pub open spec fn wf(self) -> bool {
        &&& self.position@ == (V2 { x: 0, y: 0 })
        &&& 0 < self.mass <= MASS_LIMIT
        &&& 0 < self.radius <= POS_LIMIT
    }

    pub fn new(mass: u64, radius: i64) -> (p: Planet)
        requires
            0 < mass <= MASS_LIMIT,
            0 < radius <= POS_LIMIT,
        ensures
            p.mass == mass,
            p.radius == radius,
            p.wf(),
    {
        Planet { mass, radius, position: Vec2::new(0, 0) }
    }
}

/// A mobile body subject to gravity and collision.
pub struct Ball {
    pub position: Vec2,
    pub velocity: Vec2,
    pub acceleration: Vec2,
    pub mass: u64,
    pub radius: i64,
    pub trace: Trace,
}

/// The mathematical value of a `Ball`.
pub ghost struct BallModel {
    pub position: V2,
    pub velocity: V2,
    pub acceleration: V2,
    pub mass: int,
    pub radius: int,
    pub trace: TraceModel,
}

impl View for Ball {
    type V = BallModel;

    open spec fn view(&self) -> BallModel {
        BallModel {
            position: self.position@,
            velocity: self.velocity@,
            acceleration: self.acceleration@,
            mass: self.mass as int,
            radius: self.radius as int,
            trace: self.trace@,
        }
    }
}

impl BallModel {
    pub open spec fn wf(self) -> bool {
        &&& 0 < self.mass <= MASS_LIMIT
        &&& 0 < self.radius <= POS_LIMIT
        &&& self.trace.wf()
    }
}

/// The pending launch speed that the next fired projectile will get.
pub struct NextBall {
    pub speed: i64,
}

/// The kinematic budgets a projectile must stay inside for one step of the
/// fixed-point pipeline to be exact: these are machine limits of the wide
/// intermediate arithmetic, far beyond anything a rendered world reaches.
pub open spec fn within_position_limit(b: BallModel) -> bool {
    -POS_LIMIT <= b.position.x <= POS_LIMIT && -POS_LIMIT <= b.position.y <= POS_LIMIT
}

pub open spec fn within_velocity_limit(b: BallModel) -> bool {
    -VEL_LIMIT <= b.velocity.x <= VEL_LIMIT && -VEL_LIMIT <= b.velocity.y <= VEL_LIMIT
}

pub open spec fn within_velocity_step_limit(b: BallModel) -> bool {
    -VEL_STEP_LIMIT <= b.velocity.x <= VEL_STEP_LIMIT && -VEL_STEP_LIMIT <= b.velocity.y
        <= VEL_STEP_LIMIT
}

pub open spec fn within_acceleration_limit(b: BallModel) -> bool {
    -ACC_LIMIT <= b.acceleration.x <= ACC_LIMIT && -ACC_LIMIT <= b.acceleration.y <= ACC_LIMIT
}

} // verus!
