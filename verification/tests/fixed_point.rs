use pendulum_control::fx::Fx;
use pendulum_control::fx::NEG_ONE_RAW;
use pendulum_control::fx::ONE_RAW;
use pendulum_control::fx::PI_RAW;
use pendulum_control::pendulum::clamp_control;
use pendulum_control::pendulum::acceleration;
use pendulum_control::pendulum::step;
use pendulum_control::pendulum::to_cartesian;
use pendulum_control::pendulum::PendulumParams;
use pendulum_control::pendulum::PendulumState;
use pendulum_control::pendulum::DT_RAW;
use pendulum_control::trig::cos_fx;
use pendulum_control::trig::sin_fx;

const S: f64 = 4294967296.0;

fn fxr(v: f64) -> Fx {
    Fx { raw: (v * S).round() as i64 }
}

fn tof(x: Fx) -> f64 {
    x.raw as f64 / S
}

#[test]
fn sat_add_and_sub_are_exact_and_saturate() {
    let a = fxr(1.5);
    let b = fxr(2.25);
    assert_eq!(a.sat_add(b).raw, fxr(3.75).raw);
    assert_eq!(a.sat_sub(b).raw, fxr(-0.75).raw);
    assert_eq!(Fx { raw: i64::MAX }.sat_add(Fx { raw: 1 }).raw, i64::MAX);
    assert_eq!(Fx { raw: i64::MIN }.sat_sub(Fx { raw: 1 }).raw, i64::MIN);
    assert_eq!(Fx { raw: i64::MIN }.sat_neg().raw, i64::MAX);
}

#[test]
fn sat_mul_is_exact_on_representable_products() {
    let three = Fx::of_int(3);
    let half = fxr(0.5);
    assert_eq!(three.sat_mul(half).raw, fxr(1.5).raw);
    let m8 = Fx::of_int(-8);
    assert_eq!(half.sat_mul(m8).raw, Fx::of_int(-4).raw);
    let big = Fx { raw: i64::MAX };
    assert_eq!(big.sat_mul(big).raw, i64::MAX);
    assert_eq!(big.sat_mul(Fx { raw: i64::MIN }).raw, i64::MIN);
}

#[test]
fn sat_div_truncates_toward_zero() {
    let one = Fx { raw: ONE_RAW };
    let third = one.sat_div(Fx::of_int(3));
    assert_eq!(third.raw, ONE_RAW / 3);
    let neg = Fx::of_int(-1).sat_div(Fx::of_int(3));
    assert_eq!(neg.raw, -(ONE_RAW / 3));
    assert_eq!(Fx::of_int(10).sat_div(Fx::of_int(5)).raw, Fx::of_int(2).raw);
}

#[test]
fn clamp_control_saturates_into_unit_interval() {
    assert_eq!(clamp_control(Fx::of_int(3)).raw, ONE_RAW);
    assert_eq!(clamp_control(Fx::of_int(-2)).raw, NEG_ONE_RAW);
    assert_eq!(clamp_control(fxr(0.5)).raw, fxr(0.5).raw);
}

#[test]
fn sine_and_cosine_track_the_real_functions() {
    let mut t = -7.0f64;
    while t < 7.0 {
        let s = tof(sin_fx(fxr(t)));
        let c = tof(cos_fx(fxr(t)));
        assert!((s - t.sin()).abs() < 1e-4, "sin({}) = {}", t, s);
        assert!((c - t.cos()).abs() < 1e-4, "cos({}) = {}", t, c);
        t += 0.0937;
    }
    assert_eq!(sin_fx(Fx { raw: 0 }).raw, 0);
    assert!(tof(sin_fx(Fx { raw: PI_RAW })).abs() < 1e-6);
}

#[test]
fn acceleration_is_exact_for_pure_friction() {
    // With the bob hanging straight down the gravity term vanishes exactly,
    // leaving -friction * angular_velocity, which is exact in fixed point.
    let state = PendulumState { angle: Fx { raw: 0 }, angular_velocity: Fx::of_int(2) };
    let params = PendulumParams {
        length: Fx::of_int(1),
        friction: fxr(0.5),
        control_power: Fx { raw: 0 },
    };
    let g = fxr(9.8);
    assert_eq!(acceleration(&state, &params, g).raw, NEG_ONE_RAW);
}

#[test]
fn step_is_exact_when_acceleration_vanishes() {
    // angle 0, no friction, no control: velocity is unchanged and the angle
    // advances by exactly angular_velocity * dt.
    let state = PendulumState { angle: Fx { raw: 0 }, angular_velocity: Fx::of_int(1) };
    let params = PendulumParams {
        length: Fx::of_int(10),
        friction: Fx { raw: 0 },
        control_power: Fx::of_int(5),
    };
    let next = step(&state, &params, Fx { raw: 0 }, Fx { raw: DT_RAW });
    assert_eq!(next.angular_velocity.raw, ONE_RAW);
    assert_eq!(next.angle.raw, DT_RAW);
}

#[test]
fn to_cartesian_matches_the_coordinate_transform() {
    let (x, y) = to_cartesian(Fx::of_int(2), fxr(0.7));
    assert!((tof(x) - 2.0 * 0.7f64.sin()).abs() < 1e-4);
    assert!((tof(y) + 2.0 * 0.7f64.cos()).abs() < 1e-4);
    // The sine of zero is exactly zero; the cosine goes through the shifted
    // sine at the edge of the polynomial's range, where its error peaks.
    let (x0, y0) = to_cartesian(Fx::of_int(10), Fx { raw: 0 });
    assert_eq!(x0.raw, 0);
    assert!((tof(y0) + 10.0).abs() < 1e-4);
}
