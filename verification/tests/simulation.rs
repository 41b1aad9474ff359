use pendulum_control::fx::Fx;
use pendulum_control::fx::NEG_ONE_RAW;
use pendulum_control::fx::ONE_RAW;
use pendulum_control::fx::PI_RAW;
use pendulum_control::pendulum::PendulumParams;
use pendulum_control::pendulum::PendulumState;
use pendulum_control::sim::keyboard_control;
use pendulum_control::sim::tick_time;
use pendulum_control::sim::mouse_control;
use pendulum_control::sim::Controller;
use pendulum_control::sim::PendulumSim;

const S: f64 = 4294967296.0;

fn fxr(v: f64) -> Fx {
    Fx { raw: (v * S).round() as i64 }
}

fn tof(x: Fx) -> f64 {
    x.raw as f64 / S
}

fn pid_of(sim: &PendulumSim) -> pendulum_control::pid::PidController {
    match sim.controller {
        Controller::Pid(pid) => pid,
        _ => panic!("expected a PID controller"),
    }
}

#[test]
fn control_stays_saturated_under_pid() {
    let mut sim = PendulumSim::pid_default();
    for _ in 0..300 {
        sim.advance();
        assert!(NEG_ONE_RAW <= sim.control.raw && sim.control.raw <= ONE_RAW);
        assert_eq!(sim.control_history.last().unwrap().raw, sim.control.raw);
    }
    assert_eq!(sim.control_history.len(), 300);
    assert_eq!(sim.error_history.len(), 300);
    assert_eq!(sim.accumulator_history.len(), 300);
}

#[test]
fn control_stays_saturated_under_lqr_and_inactive() {
    let mut sim = PendulumSim::lqr_default();
    for _ in 0..120 {
        sim.advance();
        assert!(NEG_ONE_RAW <= sim.control.raw && sim.control.raw <= ONE_RAW);
    }
    assert_eq!(sim.error_history.len(), 0);
    assert_eq!(sim.accumulator_history.len(), 0);
    let mut free = PendulumSim::with_controller(Controller::Inactive);
    for _ in 0..50 {
        free.advance();
        assert!(NEG_ONE_RAW <= free.control.raw && free.control.raw <= ONE_RAW);
    }
}

#[test]
fn accumulator_stays_within_the_headroom_bounds() {
    let mut sim = PendulumSim::pid_default();
    for _ in 0..400 {
        // The bounds are computed from this tick's P and D terms, taken from
        // the pre-tick state in plain floating point, with a little slack
        // for the fixed-point rounding of the terms themselves.
        let pid = pid_of(&sim);
        let error = tof(sim.state.angle) - tof(pid.set_point);
        let p = error * tof(pid.proportional_gain);
        let d = tof(sim.state.angular_velocity) * tof(pid.derivative_gain);
        let lo = (-1.0 - (p + d)).min(0.0);
        let hi = (1.0 - (p + d)).max(0.0);
        sim.advance();
        let acc = tof(pid_of(&sim).accumulator);
        assert!(lo - 1e-6 <= acc && acc <= hi + 1e-6, "acc {} not in [{}, {}]", acc, lo, hi);
    }
}

#[test]
fn the_integral_gate_latches_on() {
    let mut sim = PendulumSim::pid_default();
    let mut seen_enabled = false;
    for _ in 0..600 {
        sim.advance();
        let enabled = pid_of(&sim).accumulator_enabled;
        if seen_enabled {
            assert!(enabled, "the latch turned off without a reset");
        }
        seen_enabled = seen_enabled || enabled;
    }
    assert!(seen_enabled, "the latch never armed");
}

#[test]
fn pid_stabilizes_the_default_scenario() {
    // angle = pi + 0.5, angular_velocity = 0.1, length = 10, friction = 0,
    // control_power = 5, gains (-8, -5.5, -4), set point pi.
    let mut sim = PendulumSim::pid_default();
    let mut reached: Option<usize> = None;
    for t in 0..1500 {
        sim.advance();
        let err = (tof(sim.state.angle) - std::f64::consts::PI).abs();
        if reached.is_none() && err < 0.05 {
            reached = Some(t);
        }
        if t >= 600 {
            assert!(err < 0.05, "diverged at tick {}: {}", t, err);
        }
    }
    let hit = reached.expect("never reached the set point");
    assert!(hit < 500, "reached only at tick {}", hit);
}

#[test]
fn lqr_drives_a_small_perturbation_back_without_saturating() {
    // Same physical parameters, Q = I, R = 1, set point pi; the pendulum
    // starts upright with a small velocity perturbation.
    let mut sim = PendulumSim::lqr_default();
    sim.state = PendulumState { angle: Fx { raw: PI_RAW }, angular_velocity: fxr(0.1) };
    let mut saturated = 0usize;
    let mut worst = 0.0f64;
    for _ in 0..800 {
        sim.advance();
        if sim.control.raw == ONE_RAW || sim.control.raw == NEG_ONE_RAW {
            saturated += 1;
        }
        let err = (tof(sim.state.angle) - std::f64::consts::PI).abs();
        if err > worst {
            worst = err;
        }
    }
    let final_err = (tof(sim.state.angle) - std::f64::consts::PI).abs();
    assert!(final_err < 0.01, "final error {}", final_err);
    assert!(worst < 0.2, "left the linear regime: {}", worst);
    assert!(saturated <= 8, "saturated on {} ticks", saturated);
}

fn energy(sim: &PendulumSim) -> f64 {
    let l = tof(sim.params.length);
    let a = tof(sim.state.angle);
    let da = tof(sim.state.angular_velocity);
    0.5 * l * l * da * da + 9.8 * l * (1.0 - a.cos())
}

#[test]
fn energy_is_conserved_without_friction_or_control() {
    let mut sim = PendulumSim::with_controller(Controller::Inactive);
    sim.state = PendulumState { angle: fxr(0.3), angular_velocity: Fx { raw: 0 } };
    sim.params = PendulumParams {
        length: Fx::of_int(10),
        friction: Fx { raw: 0 },
        control_power: Fx { raw: 0 },
    };
    let e0 = energy(&sim);
    for _ in 0..2000 {
        sim.advance();
        let e = energy(&sim);
        assert!((e - e0).abs() < 0.04 * e0, "energy drifted from {} to {}", e0, e);
    }
}

#[test]
fn energy_strictly_decreases_with_friction() {
    let mut sim = PendulumSim::with_controller(Controller::Inactive);
    sim.state = PendulumState { angle: fxr(0.3), angular_velocity: Fx { raw: 0 } };
    sim.params = PendulumParams {
        length: Fx::of_int(10),
        friction: fxr(0.2),
        control_power: Fx { raw: 0 },
    };
    let e0 = energy(&sim);
    let mut samples = vec![e0];
    for t in 0..2000 {
        sim.advance();
        let e = energy(&sim);
        assert!(e <= e0 + 1e-9, "energy grew from {} to {}", e0, e);
        if t % 400 == 399 {
            samples.push(e);
        }
    }
    // Strict decay while the motion lasts.
    assert!(samples[1] < samples[0]);
    assert!(samples[2] < samples[1]);
    let e_end = *samples.last().unwrap();
    assert!(e_end < 0.01 * e0, "little energy was lost: {}", e_end);
}

#[test]
fn reset_is_idempotent() {
    let mut once = PendulumSim::pid_default();
    let mut twice = PendulumSim::pid_default();
    for _ in 0..50 {
        once.advance();
        twice.advance();
    }
    once.reset();
    twice.reset();
    twice.reset();
    assert_eq!(once.state, twice.state);
    assert_eq!(once.params, twice.params);
    assert_eq!(once.control.raw, twice.control.raw);
    assert_eq!(once.controller, twice.controller);
    assert_eq!(once.control_history, twice.control_history);
    assert_eq!(once.error_history, twice.error_history);
    assert_eq!(once.accumulator_history, twice.accumulator_history);
}

#[test]
fn reset_restores_defaults_and_clears_histories() {
    let mut sim = PendulumSim::pid_default();
    for _ in 0..80 {
        sim.advance();
    }
    let control_before = sim.control.raw;
    sim.reset();
    assert_eq!(sim.state.angle.raw, Fx { raw: PI_RAW }.sat_add(fxr(0.5)).raw);
    assert_eq!(sim.state.angular_velocity.raw, fxr(0.1).raw);
    assert!(sim.control_history.is_empty());
    assert!(sim.error_history.is_empty());
    assert!(sim.accumulator_history.is_empty());
    // The applied control value survives a reset, as do the gains.
    assert_eq!(sim.control.raw, control_before);
    let pid = pid_of(&sim);
    assert_eq!(pid.accumulator.raw, 0);
    assert!(!pid.accumulator_enabled);
    assert_eq!(pid.set_point.raw, PI_RAW);
    assert_eq!(pid.proportional_gain.raw, Fx::of_int(-8).raw);
}

#[test]
fn changing_the_set_point_rearms_a_pid_and_keeps_everything_else() {
    let mut sim = PendulumSim::pid_default();
    for _ in 0..120 {
        sim.advance();
    }
    assert!(pid_of(&sim).accumulator_enabled);
    let state_before = sim.state;
    let history_before = sim.control_history.len();
    sim.set_target(fxr(4.3));
    let pid = pid_of(&sim);
    assert_eq!(pid.set_point.raw, fxr(4.3).raw);
    assert_eq!(pid.accumulator.raw, 0);
    assert!(!pid.accumulator_enabled);
    assert_eq!(sim.state, state_before);
    assert_eq!(sim.control_history.len(), history_before);

    let mut lqr_sim = PendulumSim::lqr_default();
    lqr_sim.set_target(fxr(4.3));
    match lqr_sim.controller {
        Controller::Lqr(c) => assert_eq!(c.set_point.raw, fxr(4.3).raw),
        _ => panic!("expected an LQR controller"),
    }
}

#[test]
fn history_records_control_error_and_accumulator() {
    let mut sim = PendulumSim::pid_default();
    sim.advance();
    sim.advance();
    assert_eq!(sim.control_history.len(), 2);
    assert_eq!(sim.error_history.len(), 2);
    assert_eq!(sim.accumulator_history.len(), 2);
    // The error history records the error angle - set_point against the
    // post-tick angle of its tick.
    let pid = pid_of(&sim);
    let expected = sim.state.angle.sat_sub(pid.set_point);
    assert_eq!(sim.error_history.last().unwrap().raw, expected.raw);
    assert_eq!(sim.accumulator_history.last().unwrap().raw, pid.accumulator.raw);
}

#[test]
fn tick_time_is_the_tick_index_times_dt() {
    assert_eq!(tick_time(0).raw, 0);
    assert_eq!(tick_time(3).raw, 3 * pendulum_control::pendulum::DT_RAW);
    assert!((tof(tick_time(200)) - 10.0).abs() < 1e-6);
}

#[test]
fn keyboard_and_mouse_inputs_map_to_control_values() {
    assert_eq!(keyboard_control(true, false).raw, NEG_ONE_RAW);
    assert_eq!(keyboard_control(false, true).raw, ONE_RAW);
    assert_eq!(keyboard_control(true, true).raw, 0);
    assert_eq!(keyboard_control(false, false).raw, 0);
    assert_eq!(mouse_control(Fx::of_int(10)).raw, Fx::of_int(2).raw);
    assert_eq!(mouse_control(Fx::of_int(-10)).raw, Fx::of_int(-2).raw);
}
