//! The PID controller: proportional and derivative terms plus a gated,
//! saturation-aware integral accumulator.
//!
//! The integral term is armed only once the error magnitude first drops
//! below the arming threshold, and the accumulator is re-clamped every tick to
//! the control headroom left by the proportional and derivative terms, so it
//! can never push the combined control further past saturation than those
//! terms already are.

use vstd::prelude::*;

use crate::fx::Fx;
use crate::fx::NEG_ONE_RAW;
use crate::fx::ONE_RAW;
use crate::fx::iabs;
use crate::fx::s_add;
use crate::fx::s_clamp;
use crate::fx::s_mul;
use crate::fx::s_sub;
use crate::pendulum::DT_RAW;
use crate::pendulum::PendulumState;

verus! {

/// The integral gate: the accumulator arms once `|error| < 0.05` radians.
pub const GATE_RAW: i64 = 214748365;

/// PID configuration and state. The gains are unconstrained signed reals
/// (negative in practice, so a positive error drives a negative control).
#[derive(Clone, Copy, Debug, PartialEq, Eq, Structural)]
pub struct PidController {
    pub set_point: Fx,
    pub proportional_gain: Fx,
    pub integral_gain: Fx,
    pub derivative_gain: Fx,
    pub accumulator: Fx,
    pub accumulator_enabled: bool,
}

/// The controller's internal invariant: while the integral gate is still
/// disarmed the accumulator holds exactly zero.
pub open spec fn pid_wf(c: PidController) -> bool {
    !c.accumulator_enabled ==> c.accumulator.raw == 0
}

/// The tick's error, `angle - set_point`.
pub open spec fn pid_error(c: PidController, s: PendulumState) -> Fx {
    s_sub(s.angle, c.set_point)
}

/// The tick's combined proportional and derivative terms.
pub open spec fn pid_pd(c: PidController, s: PendulumState) -> Fx {
    s_add(
        s_mul(pid_error(c, s), c.proportional_gain),
        s_mul(s.angular_velocity, c.derivative_gain),
    )
}

/// The lower anti-windup bound: `min(-1 - (P + D), 0)`.
pub open spec fn windup_lo(pd: Fx) -> Fx {
    let b = s_sub(Fx { raw: NEG_ONE_RAW }, pd);
    if b.raw < 0 {
        b
    } else {
        Fx { raw: 0 }
    }
}

/// The upper anti-windup bound: `max(1 - (P + D), 0)`.
pub open spec fn windup_hi(pd: Fx) -> Fx {
    let b = s_sub(Fx { raw: ONE_RAW }, pd);
    if b.raw > 0 {
        b
    } else {
        Fx { raw: 0 }
    }
}

/// One controller evaluation: the updated controller state and the raw
/// (not yet saturated) control value `P + accumulator + D`.
pub open spec fn pid_compute_spec(c: PidController, s: PendulumState) -> (PidController, Fx) {
    let err = pid_error(c, s);
    let prop = s_mul(err, c.proportional_gain);
    let der = s_mul(s.angular_velocity, c.derivative_gain);
    let pd = s_add(prop, der);
    let enabled = c.accumulator_enabled || iabs(err.raw as int) < GATE_RAW as int;
    let acc = if enabled {
        let grown = s_add(c.accumulator, s_mul(s_mul(err, c.integral_gain), Fx { raw: DT_RAW }));
        s_clamp(grown, windup_lo(pd), windup_hi(pd))
    } else {
        c.accumulator
    };
    let c2 = PidController { accumulator: acc, accumulator_enabled: enabled, ..c };
    (c2, s_add(s_add(prop, acc), der))
}

/// The controller after a reset: the accumulator is zeroed and the integral
/// gate disarmed; set point and gains are kept.
pub open spec fn pid_reset_spec(c: PidController) -> PidController {
    PidController { accumulator: Fx { raw: 0 }, accumulator_enabled: false, ..c }
}

/// The anti-windup bounds always span zero, so the clamp interval is never
/// empty and the accumulator can always return toward zero.
pub proof fn lemma_windup_bounds_span_zero(pd: Fx)
    ensures
        windup_lo(pd).raw <= 0 <= windup_hi(pd).raw,
{
}

/// Anti-windup bound: after any controller evaluation of a well-formed
/// controller, the accumulator lies within the tick's headroom interval
/// `[min(-1 - (P + D), 0), max(1 - (P + D), 0)]`.
pub proof fn lemma_anti_windup_bound(c: PidController, s: PendulumState)
    requires
        pid_wf(c),
    ensures
        windup_lo(pid_pd(c, s)).raw <= pid_compute_spec(c, s).0.accumulator.raw <= windup_hi(
            pid_pd(c, s),
        ).raw,
{
}

/// Monotonic latch: a controller evaluation never disarms the integral
/// gate; only a reset or a set-point change does.
pub proof fn lemma_latch_monotonic(c: PidController, s: PendulumState)
    ensures
        c.accumulator_enabled ==> pid_compute_spec(c, s).0.accumulator_enabled,
{
}

impl PidController {
    /// A controller with the given set point and gains, its integral term
    /// disarmed and empty.
    pub fn new(set_point: Fx, proportional_gain: Fx, integral_gain: Fx, derivative_gain: Fx) -> (c:
        PidController)
        ensures
            c == (PidController {
                set_point,
                proportional_gain,
                integral_gain,
                derivative_gain,
                accumulator: Fx { raw: 0 },
                accumulator_enabled: false,
            }),
            pid_wf(c),
    {
        PidController {
            set_point,
            proportional_gain,
            integral_gain,
            derivative_gain,
            accumulator: Fx { raw: 0 },
            accumulator_enabled: false,
        }
    }

    /// One controller evaluation against the pre-tick state: updates the
    /// accumulator and gate in place and returns the raw control value,
    /// which the caller must still saturate.
    pub fn compute(&mut self, state: &PendulumState) -> (control: Fx)
        ensures
            (*final(self), control) == pid_compute_spec(*old(self), *state),
            old(self).accumulator_enabled ==> final(self).accumulator_enabled,
            pid_wf(*old(self)) ==> pid_wf(*final(self)),
            pid_wf(*old(self)) ==> windup_lo(pid_pd(*old(self), *state)).raw
                <= final(self).accumulator.raw <= windup_hi(pid_pd(*old(self), *state)).raw,
    {
        let err = state.angle.sat_sub(self.set_point);
        let prop = err.sat_mul(self.proportional_gain);
        let der = state.angular_velocity.sat_mul(self.derivative_gain);
        let pd = prop.sat_add(der);
        if -GATE_RAW < err.raw && err.raw < GATE_RAW {
            self.accumulator_enabled = true;
        }
        if self.accumulator_enabled {
            let grown = self.accumulator.sat_add(
                err.sat_mul(self.integral_gain).sat_mul(Fx { raw: DT_RAW }),
            );
            let lo_b = Fx { raw: NEG_ONE_RAW }.sat_sub(pd);
            let lo = if lo_b.raw < 0 {
                lo_b
            } else {
                Fx { raw: 0 }
            };
            let hi_b = Fx { raw: ONE_RAW }.sat_sub(pd);
            let hi = if hi_b.raw > 0 {
                hi_b
            } else {
                Fx { raw: 0 }
            };
            self.accumulator = grown.clamped(lo, hi);
        }
        prop.sat_add(self.accumulator).sat_add(der)
    }

    /// Reset: zero the accumulator and disarm the integral gate.
    pub fn reset(&mut self)
        ensures
            *final(self) == pid_reset_spec(*old(self)),
            pid_wf(*final(self)),
    {
        self.accumulator = Fx { raw: 0 };
        self.accumulator_enabled = false;
    }

    /// Change the set point. Any modification re-arms the integral gate and
    /// clears the accumulator, so a stale integral cannot fight the
    /// relocated target.
    pub fn set_target(&mut self, set_point: Fx)
        ensures
            *final(self) == (PidController { set_point, ..pid_reset_spec(*old(self)) }),
            pid_wf(*final(self)),
    {
        self.set_point = set_point;
        self.accumulator = Fx { raw: 0 };
        self.accumulator_enabled = false;
    }
}

/// Two resets in a row leave the controller exactly as one does.
pub proof fn lemma_pid_reset_idempotent(c: PidController)
    ensures
        pid_reset_spec(pid_reset_spec(c)) == pid_reset_spec(c),
{
}

} // verus!
