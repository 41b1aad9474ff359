//! The per-tick orchestration: one simulated body with its parameters, an
//! optionally attached controller (PID, LQR or none), the saturated control
//! value, and the append-only history sequences read by the plotting
//! collaborator.
//!
//! Each tick runs, strictly in this order: controller evaluation against
//! the pre-tick state, saturation of the control value, integration, and
//! history appends.

use vstd::prelude::*;

use crate::fx::Fx;
use crate::fx::NEG_ONE_RAW;
use crate::fx::ONE_RAW;
use crate::fx::s_div;
use crate::fx::s_sub;
use crate::lqr::LqrController;
use crate::lqr::lqr_control_spec;
use crate::pendulum::DT_RAW;
use crate::pendulum::PendulumParams;
use crate::pendulum::PendulumState;
use crate::pendulum::clamp_control;
use crate::pendulum::clamp_control_spec;
use crate::pendulum::params_wf;
use crate::pendulum::step;
use crate::pendulum::step_spec;
use crate::pid::PidController;
use crate::pid::pid_compute_spec;
use crate::pid::pid_reset_spec;
use crate::pid::pid_wf;

verus! {

/// The raw default initial angle, `pi + 0.5` radians: near, but not at, the
/// unstable upright equilibrium.
pub const DEFAULT_ANGLE_RAW: i64 = 15640521353;

/// The raw default initial angular velocity, `0.1` radians per second.
pub const DEFAULT_ANGVEL_RAW: i64 = 429496730;

/// The raw default rod length, `10` meters.
pub const DEFAULT_LENGTH_RAW: i64 = 42949672960;

/// The raw default actuator gain, `5`.
pub const DEFAULT_POWER_RAW: i64 = 21474836480;

/// The raw default proportional gain, `-8`.
pub const DEFAULT_KP_RAW: i64 = -34359738368;

/// The raw default integral gain, `-5.5`.
pub const DEFAULT_KI_RAW: i64 = -23622320128;

/// The raw default derivative gain, `-4`.
pub const DEFAULT_KD_RAW: i64 = -17179869184;

/// The raw divisor applied to accumulated mouse motion, `5`.
pub const MOUSE_SCALE_RAW: i64 = 21474836480;

/// The controller attached to a body: the set is closed and small, so it is
/// a tagged variant dispatched by matching.
#[derive(Clone, Copy, Debug, PartialEq, Eq, Structural)]
pub enum Controller {
    /// No feedback controller: the control value is whatever the input
    /// surface last set.
    Inactive,
    /// A PID controller.
    Pid(PidController),
    /// An LQR controller.
    Lqr(LqrController),
}

/// One simulated body: physical state and parameters, the attached
/// controller, the control value as applied (always saturated), and the
/// history sequences.
///
/// The histories are append-only and grow without bound, one entry per tick,
/// until a reset empties them: a long-running session that never resets will
/// exhaust memory eventually. A hardened deployment should cap them (a ring
/// buffer or an explicit capacity) in the layer that owns the tick loop.
pub struct PendulumSim {
    pub state: PendulumState,
    pub params: PendulumParams,
    pub control: Fx,
    pub controller: Controller,
    pub control_history: Vec<Fx>,
    pub error_history: Vec<Fx>,
    pub accumulator_history: Vec<Fx>,
}

/// The mathematical value of a body: state, parameters, applied control,
/// controller, and the three history sequences.
pub type SimView = (PendulumState, PendulumParams, Fx, Controller, Seq<Fx>, Seq<Fx>, Seq<Fx>);

/// The view of a body.
pub open spec fn sim_view(s: PendulumSim) -> SimView {
    (
        s.state,
        s.params,
        s.control,
        s.controller,
        s.control_history@,
        s.error_history@,
        s.accumulator_history@,
    )
}

/// A body is well formed when its parameters satisfy the domain invariant
/// and an attached PID controller is well formed.
pub open spec fn sim_wf(s: PendulumSim) -> bool {
    &&& params_wf(s.params)
    &&& match s.controller {
        Controller::Pid(c) => pid_wf(c),
        _ => true,
    }
}

/// One controller evaluation: the updated controller and the raw control
/// value. Without a controller the previously applied value is kept; on an
/// LQR solver failure the previously applied value is held.
pub open spec fn controller_step_spec(c: Controller, s: PendulumState, prev: Fx) -> (Controller, Fx) {
    match c {
        Controller::Inactive => (c, prev),
        Controller::Pid(pid) => {
            let (pid2, u) = pid_compute_spec(pid, s);
            (Controller::Pid(pid2), u)
        },
        Controller::Lqr(lqr) => (c, lqr_control_spec(lqr, s, prev)),
    }
}

/// One full tick: controller, saturation, integration, history appends.
/// The error history records the error `angle - set_point` against the
/// post-tick angle, and the accumulator history the post-evaluation
/// accumulator; both only when a PID controller is attached.
pub open spec fn tick_view(v: SimView) -> SimView {
    let (c2, raw) = controller_step_spec(v.3, v.0, v.2);
    let u = clamp_control_spec(raw);
    let s2 = step_spec(v.0, v.1, u, Fx { raw: DT_RAW });
    match c2 {
        Controller::Pid(pid2) => (
            s2,
            v.1,
            u,
            c2,
            v.4.push(u),
            v.5.push(s_sub(s2.angle, pid2.set_point)),
            v.6.push(pid2.accumulator),
        ),
        _ => (s2, v.1, u, c2, v.4.push(u), v.5, v.6),
    }
}

/// The body after a reset: default state, histories cleared, an attached
/// PID controller's accumulator and gate cleared; parameters, the applied
/// control value and the LQR model and costs are kept.
pub open spec fn reset_controller_spec(c: Controller) -> Controller {
    match c {
        Controller::Pid(pid) => Controller::Pid(pid_reset_spec(pid)),
        _ => c,
    }
}

/// The view of a body after a reset.
pub open spec fn reset_view(v: SimView) -> SimView {
    (
        default_state(),
        v.1,
        v.2,
        reset_controller_spec(v.3),
        Seq::<Fx>::empty(),
        Seq::<Fx>::empty(),
        Seq::<Fx>::empty(),
    )
}

/// The controller after a set-point change: a PID controller additionally
/// loses its accumulator and integral gate, so a stale integral cannot
/// fight the relocated target.
pub open spec fn retarget_controller_spec(c: Controller, set_point: Fx) -> Controller {
    match c {
        Controller::Inactive => c,
        Controller::Pid(pid) => Controller::Pid(
            PidController { set_point, ..pid_reset_spec(pid) },
        ),
        Controller::Lqr(lqr) => Controller::Lqr(LqrController { set_point, ..lqr }),
    }
}

/// The default initial state: `angle = pi + 0.5`, `angular_velocity = 0.1`.
pub open spec fn default_state() -> PendulumState {
    PendulumState {
        angle: Fx { raw: DEFAULT_ANGLE_RAW },
        angular_velocity: Fx { raw: DEFAULT_ANGVEL_RAW },
    }
}

/// The default parameters: `length = 10`, `friction = 0`,
/// `control_power = 5`.
pub open spec fn default_params() -> PendulumParams {
    PendulumParams {
        length: Fx { raw: DEFAULT_LENGTH_RAW },
        friction: Fx { raw: 0 },
        control_power: Fx { raw: DEFAULT_POWER_RAW },
    }
}

/// Saturation invariant: whatever the controller and state, the control
/// value a tick applies to the integrator lies in `[-1, 1]`.
pub proof fn lemma_control_saturation(v: SimView)
    ensures
        NEG_ONE_RAW <= tick_view(v).2.raw <= ONE_RAW,
{
}

/// Reset idempotence: resetting twice in a row leaves the body exactly as
/// one reset does.
pub proof fn lemma_reset_idempotent(v: SimView)
    ensures
        reset_view(reset_view(v)) == reset_view(v),
{
}

impl PendulumSim {
    /// A body with the default state and parameters and the given
    /// controller, with empty histories and a zero control value.
    pub fn with_controller(controller: Controller) -> (r: PendulumSim)
        ensures
            sim_view(r) == (
                default_state(),
                default_params(),
                Fx { raw: 0 },
                controller,
                Seq::<Fx>::empty(),
                Seq::<Fx>::empty(),
                Seq::<Fx>::empty(),
            ),
    {
        PendulumSim {
            state: PendulumState {
                angle: Fx { raw: DEFAULT_ANGLE_RAW },
                angular_velocity: Fx { raw: DEFAULT_ANGVEL_RAW },
            },
            params: PendulumParams {
                length: Fx { raw: DEFAULT_LENGTH_RAW },
                friction: Fx { raw: 0 },
                control_power: Fx { raw: DEFAULT_POWER_RAW },
            },
            control: Fx { raw: 0 },
            controller,
            control_history: Vec::new(),
            error_history: Vec::new(),
            accumulator_history: Vec::new(),
        }
    }

    /// The default PID body: set point `pi`, gains `(-8, -5.5, -4)`.
    pub fn pid_default() -> (r: PendulumSim)
        ensures
            sim_view(r) == (
                default_state(),
                default_params(),
                Fx { raw: 0 },
                Controller::Pid(
                    PidController {
                        set_point: Fx { raw: crate::fx::PI_RAW },
                        proportional_gain: Fx { raw: DEFAULT_KP_RAW },
                        integral_gain: Fx { raw: DEFAULT_KI_RAW },
                        derivative_gain: Fx { raw: DEFAULT_KD_RAW },
                        accumulator: Fx { raw: 0 },
                        accumulator_enabled: false,
                    },
                ),
                Seq::<Fx>::empty(),
                Seq::<Fx>::empty(),
                Seq::<Fx>::empty(),
            ),
            sim_wf(r),
    {
        PendulumSim::with_controller(
            Controller::Pid(
                PidController::new(
                    Fx { raw: crate::fx::PI_RAW },
                    Fx { raw: DEFAULT_KP_RAW },
                    Fx { raw: DEFAULT_KI_RAW },
                    Fx { raw: DEFAULT_KD_RAW },
                ),
            ),
        )
    }

    /// The default LQR body: the model linearized from the default
    /// parameters, identity state cost, unit input cost, set point `pi`.
    pub fn lqr_default() -> (r: PendulumSim)
        ensures
            sim_view(r) == (
                default_state(),
                default_params(),
                Fx { raw: 0 },
                Controller::Lqr(
                    LqrController {
                        set_point: Fx { raw: crate::fx::PI_RAW },
                        a: crate::lqr::linearize_a_spec(default_params()),
                        b: crate::lqr::linearize_b_spec(default_params()),
                        q: crate::lqr::mat_identity(),
                        r: Fx { raw: ONE_RAW },
                    },
                ),
                Seq::<Fx>::empty(),
                Seq::<Fx>::empty(),
                Seq::<Fx>::empty(),
            ),
            sim_wf(r),
    {
        let params = PendulumParams {
            length: Fx { raw: DEFAULT_LENGTH_RAW },
            friction: Fx { raw: 0 },
            control_power: Fx { raw: DEFAULT_POWER_RAW },
        };
        let lqr = LqrController::from_params(&params, Fx { raw: crate::fx::PI_RAW });
        PendulumSim::with_controller(Controller::Lqr(lqr))
    }

    /// Whether the body satisfies the tick precondition: positive length,
    /// nonnegative damping and actuator gain, and a zero accumulator while
    /// the integral gate is disarmed.
    pub fn is_well_formed(&self) -> (r: bool)
        ensures
            r == sim_wf(*self),
    {
        let params_ok = self.params.length.raw > 0 && self.params.friction.raw >= 0
            && self.params.control_power.raw >= 0;
        let controller_ok = match self.controller {
            Controller::Pid(pid) => pid.accumulator_enabled || pid.accumulator.raw == 0,
            _ => true,
        };
        params_ok && controller_ok
    }

    /// One fixed tick. The controller reads the pre-tick state; its raw
    /// output is saturated, applied through the integrator, and recorded.
    pub fn advance(&mut self)
        requires
            sim_wf(*old(self)),
        ensures
            sim_view(*final(self)) == tick_view(sim_view(*old(self))),
            sim_wf(*final(self)),
            NEG_ONE_RAW <= final(self).control.raw <= ONE_RAW,
    {
        let raw: Fx = match self.controller {
            Controller::Inactive => self.control,
            Controller::Pid(mut pid) => {
                let u = pid.compute(&self.state);
                self.controller = Controller::Pid(pid);
                u
            },
            Controller::Lqr(lqr) => lqr.compute(&self.state, self.control),
        };
        let u = clamp_control(raw);
        self.control = u;
        self.state = step(&self.state, &self.params, u, Fx { raw: DT_RAW });
        self.control_history.push(u);
        if let Controller::Pid(pid) = self.controller {
            self.error_history.push(self.state.angle.sat_sub(pid.set_point));
            self.accumulator_history.push(pid.accumulator);
        }
    }

    /// Change the attached controller's set point between ticks. On a PID
    /// controller any change clears the accumulator and disarms the
    /// integral gate; everything else is untouched.
    pub fn set_target(&mut self, set_point: Fx)
        ensures
            *final(self) == (PendulumSim {
                controller: retarget_controller_spec(old(self).controller, set_point),
                ..*old(self)
            }),
            sim_wf(*old(self)) ==> sim_wf(*final(self)),
    {
        match self.controller {
            Controller::Inactive => {},
            Controller::Pid(mut pid) => {
                pid.set_target(set_point);
                self.controller = Controller::Pid(pid);
            },
            Controller::Lqr(lqr) => {
                self.controller = Controller::Lqr(LqrController { set_point, ..lqr });
            },
        }
    }

    /// Reset: restore the default state, clear the histories, and clear an
    /// attached PID controller's accumulator and integral gate. Parameters,
    /// the applied control value, the gains and the LQR model are kept.
    pub fn reset(&mut self)
        ensures
            sim_view(*final(self)) == reset_view(sim_view(*old(self))),
            sim_wf(*old(self)) ==> sim_wf(*final(self)),
    {
        self.state = PendulumState {
            angle: Fx { raw: DEFAULT_ANGLE_RAW },
            angular_velocity: Fx { raw: DEFAULT_ANGVEL_RAW },
        };
        self.control_history = Vec::new();
        self.error_history = Vec::new();
        self.accumulator_history = Vec::new();
        if let Controller::Pid(mut pid) = self.controller {
            pid.reset();
            self.controller = Controller::Pid(pid);
        }
    }
}

/// The wall-clock time of a history entry for plotting: `tick_index * dt`.
pub fn tick_time(index: u32) -> (r: Fx)
    ensures
        r.raw == index * DT_RAW,
{
    Fx { raw: (index as i64) * DT_RAW }
}

/// The control value commanded from the keyboard: left and right arrows
/// pull one unit each way.
pub fn keyboard_control(left: bool, right: bool) -> (r: Fx)
    ensures
        r.raw as int == (if left {
            NEG_ONE_RAW as int
        } else {
            0
        }) + (if right {
            ONE_RAW as int
        } else {
            0
        }),
{
    let mut v: i64 = 0;
    if left {
        v = v - ONE_RAW;
    }
    if right {
        v = v + ONE_RAW;
    }
    Fx { raw: v }
}

/// The control value commanded from accumulated mouse motion: the summed
/// horizontal delta scaled down by five.
pub fn mouse_control(delta_sum: Fx) -> (r: Fx)
    ensures
        r == s_div(delta_sum, Fx { raw: MOUSE_SCALE_RAW }),
{
    delta_sum.sat_div(Fx { raw: MOUSE_SCALE_RAW })
}

} // verus!
