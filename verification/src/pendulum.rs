//! The physical body: state, parameters, nonlinear dynamics and the
//! fixed-step symplectic-Euler integrator.

use vstd::prelude::*;

use crate::fx::Fx;
use crate::fx::NEG_ONE_RAW;
use crate::fx::ONE_RAW;
use crate::fx::s_add;
use crate::fx::s_clamp;
use crate::fx::s_div;
use crate::fx::s_mul;
use crate::fx::s_neg;
use crate::fx::s_sub;
use crate::trig::cos_spec;
use crate::trig::sin_spec;
use crate::trig::cos_fx;
use crate::trig::sin_fx;

verus! {

/// The fixed tick, `0.05` seconds (in fixed-point raw units).
pub const DT_RAW: i64 = 214748365;

/// Gravitational acceleration, `9.8` meters per second squared.
pub const GRAVITY_RAW: i64 = 42090679501;

/// The dynamic state of the pendulum: angle in radians (zero is hanging
/// straight down, pi is the upright equilibrium) and angular velocity in
/// radians per second.
#[derive(Clone, Copy, Debug, PartialEq, Eq, Structural)]
pub struct PendulumState {
    pub angle: Fx,
    pub angular_velocity: Fx,
}

/// The physical parameters: rod length, viscous damping coefficient and
/// actuator gain. Externally adjustable between ticks, never mutated here.
#[derive(Clone, Copy, Debug, PartialEq, Eq, Structural)]
pub struct PendulumParams {
    pub length: Fx,
    pub friction: Fx,
    pub control_power: Fx,
}

/// The domain invariant the configuration surface maintains: a positive rod
/// length, nonnegative damping and nonnegative actuator gain.
pub open spec fn params_wf(p: PendulumParams) -> bool {
    &&& p.length.raw > 0
    &&& p.friction.raw >= 0
    &&& p.control_power.raw >= 0
}

/// Angular acceleration from gravity and damping:
/// `-gravity * sin(angle) / length - friction * angular_velocity`.
pub open spec fn acceleration_spec(state: PendulumState, params: PendulumParams, gravity: Fx) -> Fx {
    s_sub(
        s_div(s_mul(s_neg(gravity), sin_spec(state.angle)), params.length),
        s_mul(params.friction, state.angular_velocity),
    )
}

/// One semi-implicit (symplectic) Euler step: the velocity is advanced
/// first, and the updated velocity advances the angle.
pub open spec fn step_spec(state: PendulumState, params: PendulumParams, control: Fx, dt: Fx) -> PendulumState {
    let accel = s_add(
        acceleration_spec(state, params, Fx { raw: GRAVITY_RAW }),
        s_mul(control, params.control_power),
    );
    let vel = s_add(state.angular_velocity, s_mul(accel, dt));
    PendulumState { angle: s_add(state.angle, s_mul(vel, dt)), angular_velocity: vel }
}

/// A control value after saturation: always in `[-1, 1]`.
pub open spec fn clamp_control_spec(value: Fx) -> Fx {
    s_clamp(value, Fx { raw: NEG_ONE_RAW }, Fx { raw: ONE_RAW })
}

/// Angular acceleration of the free pendulum.
pub fn acceleration(state: &PendulumState, params: &PendulumParams, gravity: Fx) -> (r: Fx)
    requires
        params.length.raw != 0,
    ensures
        r == acceleration_spec(*state, *params, gravity),
{
    let swing = gravity.sat_neg().sat_mul(sin_fx(state.angle)).sat_div(params.length);
    swing.sat_sub(params.friction.sat_mul(state.angular_velocity))
}

/// One integration step under an (already clamped) control value.
pub fn step(state: &PendulumState, params: &PendulumParams, control: Fx, dt: Fx) -> (r: PendulumState)
    requires
        params.length.raw != 0,
    ensures
        r == step_spec(*state, *params, control, dt),
{
    let accel = acceleration(state, params, Fx { raw: GRAVITY_RAW }).sat_add(
        control.sat_mul(params.control_power),
    );
    let vel = state.angular_velocity.sat_add(accel.sat_mul(dt));
    PendulumState { angle: state.angle.sat_add(vel.sat_mul(dt)), angular_velocity: vel }
}

/// Saturation of a raw control value into `[-1, 1]`: the single point where
/// the control invariant is enforced.
pub fn clamp_control(value: Fx) -> (r: Fx)
    ensures
        r == clamp_control_spec(value),
        -ONE_RAW <= r.raw <= ONE_RAW,
{
    value.clamped(Fx { raw: NEG_ONE_RAW }, Fx { raw: ONE_RAW })
}

/// The cartesian position of the bob for the visualization collaborator:
/// `x = length * sin(angle)`, `y = -length * cos(angle)`.
pub fn to_cartesian(length: Fx, angle: Fx) -> (r: (Fx, Fx))
    ensures
        r.0 == s_mul(length, sin_spec(angle)),
        r.1 == s_neg(s_mul(length, cos_spec(angle))),
{
    let x = length.sat_mul(sin_fx(angle));
    let y = length.sat_mul(cos_fx(angle)).sat_neg();
    (x, y)
}

} // verus!
