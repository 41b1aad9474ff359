//! An inverted-pendulum control sandbox: a fixed-step symplectic-Euler
//! integrator for a single-degree-of-freedom pendulum, a PID controller with
//! headroom-based anti-windup, and an LQR controller whose state-feedback gain
//! is derived each tick from a discrete algebraic Riccati equation solver.
//!
//! All quantities are signed fixed-point numbers with 32 fractional bits
//! ([`fx::Fx`]), so every arithmetic step has an exact, machine-checked
//! contract. Rendering, windowing and interactive sliders are external
//! collaborators: they write plain configuration values into the types here
//! and read plain state and history values back out.

pub mod fx;
pub mod lqr;
pub mod pendulum;
pub mod pid;
pub mod sim;
pub mod trig;
