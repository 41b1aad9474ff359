//! The LQR controller and the discrete algebraic Riccati equation (DARE)
//! solver that derives its state-feedback gain.
//!
//! The solver iterates the discrete-time Riccati recursion
//! `P' = Q + A^T P A - A^T P B (R + B^T P B)^-1 B^T P A`
//! from `P = Q` until consecutive iterates differ elementwise by less than a
//! tolerance, and fails with `DidNotConverge` when an iteration bound runs
//! out, or with `SingularGainMatrix` when the scalar `R + B^T P B` is
//! exactly zero.

use vstd::prelude::*;

use crate::fx::Fx;
use crate::fx::ONE_RAW;
use crate::fx::TWO_RAW;
use crate::fx::iabs;
use crate::fx::s_add;
use crate::fx::s_div;
use crate::fx::s_mul;
use crate::fx::s_neg;
use crate::fx::s_sub;
use crate::pendulum::DT_RAW;
use crate::pendulum::GRAVITY_RAW;
use crate::pendulum::PendulumParams;
use crate::pendulum::PendulumState;

verus! {

/// The convergence tolerance handed to the solver each tick
/// (about `1e-7` in fixed-point raw units).
pub const SOLVE_TOL_RAW: i64 = 429;

/// The iteration bound of the Riccati recursion.
pub const SOLVE_MAX_ITERS: u32 = 10000;

/// A 2 by 2 matrix of fixed-point numbers, row major.
#[derive(Clone, Copy, Debug, PartialEq, Eq, Structural)]
pub struct Mat2 {
    pub m11: Fx,
    pub m12: Fx,
    pub m21: Fx,
    pub m22: Fx,
}

/// A 2 by 1 column of fixed-point numbers.
#[derive(Clone, Copy, Debug, PartialEq, Eq, Structural)]
pub struct Col2 {
    pub x1: Fx,
    pub x2: Fx,
}

/// A 1 by 2 state-feedback gain row.
#[derive(Clone, Copy, Debug, PartialEq, Eq, Structural)]
pub struct GainRow {
    pub k1: Fx,
    pub k2: Fx,
}

/// The ways the gain derivation can fail. Both are recoverable by policy:
/// the controller holds the previous control value for the tick.
#[derive(Clone, Copy, Debug, PartialEq, Eq, Structural)]
pub enum SolveError {
    /// The Riccati recursion hit its iteration bound before consecutive
    /// iterates came within tolerance.
    DidNotConverge,
    /// The scalar `R + B^T P B` was exactly zero, so no gain exists.
    SingularGainMatrix,
}

/// The identity matrix.
pub open spec fn mat_identity() -> Mat2 {
    Mat2 {
        m11: Fx { raw: ONE_RAW },
        m12: Fx { raw: 0 },
        m21: Fx { raw: 0 },
        m22: Fx { raw: ONE_RAW },
    }
}

/// The product `P * A`.
pub open spec fn mat_mul_spec(p: Mat2, a: Mat2) -> Mat2 {
    Mat2 {
        m11: s_add(s_mul(p.m11, a.m11), s_mul(p.m12, a.m21)),
        m12: s_add(s_mul(p.m11, a.m12), s_mul(p.m12, a.m22)),
        m21: s_add(s_mul(p.m21, a.m11), s_mul(p.m22, a.m21)),
        m22: s_add(s_mul(p.m21, a.m12), s_mul(p.m22, a.m22)),
    }
}

/// The product `P * b` of a matrix and a column.
pub open spec fn mat_col_spec(p: Mat2, b: Col2) -> Col2 {
    Col2 {
        x1: s_add(s_mul(p.m11, b.x1), s_mul(p.m12, b.x2)),
        x2: s_add(s_mul(p.m21, b.x1), s_mul(p.m22, b.x2)),
    }
}

/// The transpose of a matrix.
pub open spec fn transpose_spec(a: Mat2) -> Mat2 {
    Mat2 { m11: a.m11, m12: a.m21, m21: a.m12, m22: a.m22 }
}

/// The scalar `b^T * P * b`.
pub open spec fn btpb_spec(b: Col2, p: Mat2) -> Fx {
    let pb = mat_col_spec(p, b);
    s_add(s_mul(b.x1, pb.x1), s_mul(b.x2, pb.x2))
}

/// One application of the Riccati recursion
/// `Q + A^T P A - A^T P B (R + B^T P B)^-1 B^T P A`, with the scalar
/// division applied last to each entry of the rank-one correction.
/// Meaningful only when `R + B^T P B` is nonzero.
pub open spec fn dare_next_spec(a: Mat2, b: Col2, q: Mat2, r: Fx, p: Mat2) -> Mat2 {
    let pa = mat_mul_spec(p, a);
    let atpa = mat_mul_spec(transpose_spec(a), pa);
    let pb = mat_col_spec(p, b);
    let s = s_add(r, s_add(s_mul(b.x1, pb.x1), s_mul(b.x2, pb.x2)));
    let apb = mat_col_spec(transpose_spec(a), pb);
    let bpa1 = s_add(s_mul(b.x1, pa.m11), s_mul(b.x2, pa.m21));
    let bpa2 = s_add(s_mul(b.x1, pa.m12), s_mul(b.x2, pa.m22));
    Mat2 {
        m11: s_sub(s_add(q.m11, atpa.m11), s_div(s_mul(apb.x1, bpa1), s)),
        m12: s_sub(s_add(q.m12, atpa.m12), s_div(s_mul(apb.x1, bpa2), s)),
        m21: s_sub(s_add(q.m21, atpa.m21), s_div(s_mul(apb.x2, bpa1), s)),
        m22: s_sub(s_add(q.m22, atpa.m22), s_div(s_mul(apb.x2, bpa2), s)),
    }
}

/// Whether two consecutive iterates agree elementwise within the tolerance.
pub open spec fn dare_converged(p2: Mat2, p: Mat2, tol: Fx) -> bool {
    &&& iabs(s_sub(p2.m11, p.m11).raw as int) < tol.raw as int
    &&& iabs(s_sub(p2.m12, p.m12).raw as int) < tol.raw as int
    &&& iabs(s_sub(p2.m21, p.m21).raw as int) < tol.raw as int
    &&& iabs(s_sub(p2.m22, p.m22).raw as int) < tol.raw as int
}

/// The Riccati iteration from `p` with `fuel` applications left: the exact
/// functional description of the solver loop.
pub open spec fn dare_run_spec(a: Mat2, b: Col2, q: Mat2, r: Fx, tol: Fx, p: Mat2, fuel: nat) -> Result<
    Mat2,
    SolveError,
>
    decreases fuel,
{
    if fuel == 0 {
        Err(SolveError::DidNotConverge)
    } else {
        let s = s_add(r, btpb_spec(b, p));
        if s.raw == 0 {
            Err(SolveError::SingularGainMatrix)
        } else {
            let p2 = dare_next_spec(a, b, q, r, p);
            if dare_converged(p2, p, tol) {
                Ok(p2)
            } else {
                dare_run_spec(a, b, q, r, tol, p2, (fuel - 1) as nat)
            }
        }
    }
}

/// The gain row `(R + B^T P B)^-1 B^T P A` derived from a solution `P`.
/// Meaningful only when the scalar is nonzero.
pub open spec fn gain_from_spec(a: Mat2, b: Col2, p: Mat2, r: Fx) -> GainRow {
    let pa = mat_mul_spec(p, a);
    let s = s_add(r, btpb_spec(b, p));
    let bpa1 = s_add(s_mul(b.x1, pa.m11), s_mul(b.x2, pa.m21));
    let bpa2 = s_add(s_mul(b.x1, pa.m12), s_mul(b.x2, pa.m22));
    GainRow { k1: s_div(bpa1, s), k2: s_div(bpa2, s) }
}

/// The whole per-tick gain derivation: solve the DARE, then divide the row
/// `B^T P A` by the scalar `R + B^T P B`, failing if it is exactly zero.
pub open spec fn gain_run_spec(a: Mat2, b: Col2, q: Mat2, r: Fx, tol: Fx, fuel: nat) -> Result<
    GainRow,
    SolveError,
> {
    match dare_run_spec(a, b, q, r, tol, q, fuel) {
        Err(e) => Err(e),
        Ok(p) => {
            let s = s_add(r, btpb_spec(b, p));
            if s.raw == 0 {
                Err(SolveError::SingularGainMatrix)
            } else {
                Ok(gain_from_spec(a, b, p, r))
            }
        },
    }
}

/// A successful solve returns an approximate fixed point of the recursion:
/// the result is one Riccati application away from its predecessor, within
/// the tolerance, elementwise.
pub proof fn lemma_dare_solution_near_fixed_point(
    a: Mat2,
    b: Col2,
    q: Mat2,
    r: Fx,
    tol: Fx,
    p0: Mat2,
    fuel: nat,
    p: Mat2,
)
    requires
        dare_run_spec(a, b, q, r, tol, p0, fuel) == Ok::<Mat2, SolveError>(p),
    ensures
        exists|prev: Mat2| p == dare_next_spec(a, b, q, r, prev) && dare_converged(p, prev, tol),
    decreases fuel,
{
    if fuel > 0 {
        let s = s_add(r, btpb_spec(b, p0));
        if s.raw != 0 {
            let p2 = dare_next_spec(a, b, q, r, p0);
            if dare_converged(p2, p0, tol) {
                assert(p == dare_next_spec(a, b, q, r, p0) && dare_converged(p, p0, tol));
            } else {
                lemma_dare_solution_near_fixed_point(a, b, q, r, tol, p2, (fuel - 1) as nat, p);
            }
        }
    }
}

/// One exec application of the Riccati recursion.
pub fn dare_iterate(a: &Mat2, b: &Col2, q: &Mat2, r: Fx, p: &Mat2) -> (r2: Mat2)
    requires
        s_add(r, btpb_spec(*b, *p)).raw != 0,
    ensures
        r2 == dare_next_spec(*a, *b, *q, r, *p),
{
    let pa = Mat2 {
        m11: p.m11.sat_mul(a.m11).sat_add(p.m12.sat_mul(a.m21)),
        m12: p.m11.sat_mul(a.m12).sat_add(p.m12.sat_mul(a.m22)),
        m21: p.m21.sat_mul(a.m11).sat_add(p.m22.sat_mul(a.m21)),
        m22: p.m21.sat_mul(a.m12).sat_add(p.m22.sat_mul(a.m22)),
    };
    let atpa = Mat2 {
        m11: a.m11.sat_mul(pa.m11).sat_add(a.m21.sat_mul(pa.m21)),
        m12: a.m11.sat_mul(pa.m12).sat_add(a.m21.sat_mul(pa.m22)),
        m21: a.m12.sat_mul(pa.m11).sat_add(a.m22.sat_mul(pa.m21)),
        m22: a.m12.sat_mul(pa.m12).sat_add(a.m22.sat_mul(pa.m22)),
    };
    let pb = Col2 {
        x1: p.m11.sat_mul(b.x1).sat_add(p.m12.sat_mul(b.x2)),
        x2: p.m21.sat_mul(b.x1).sat_add(p.m22.sat_mul(b.x2)),
    };
    let s = r.sat_add(b.x1.sat_mul(pb.x1).sat_add(b.x2.sat_mul(pb.x2)));
    let apb = Col2 {
        x1: a.m11.sat_mul(pb.x1).sat_add(a.m21.sat_mul(pb.x2)),
        x2: a.m12.sat_mul(pb.x1).sat_add(a.m22.sat_mul(pb.x2)),
    };
    let bpa1 = b.x1.sat_mul(pa.m11).sat_add(b.x2.sat_mul(pa.m21));
    let bpa2 = b.x1.sat_mul(pa.m12).sat_add(b.x2.sat_mul(pa.m22));
    Mat2 {
        m11: q.m11.sat_add(atpa.m11).sat_sub(apb.x1.sat_mul(bpa1).sat_div(s)),
        m12: q.m12.sat_add(atpa.m12).sat_sub(apb.x1.sat_mul(bpa2).sat_div(s)),
        m21: q.m21.sat_add(atpa.m21).sat_sub(apb.x2.sat_mul(bpa1).sat_div(s)),
        m22: q.m22.sat_add(atpa.m22).sat_sub(apb.x2.sat_mul(bpa2).sat_div(s)),
    }
}

/// Whether a difference is within the tolerance in magnitude.
fn within_tol(d: Fx, tol: Fx) -> (r: bool)
    ensures
        r == (iabs(d.raw as int) < tol.raw as int),
{
    if d.raw >= 0 {
        d.raw < tol.raw
    } else {
        -(d.raw as i128) < tol.raw as i128
    }
}

/// Elementwise convergence test between consecutive iterates.
fn converged(p2: &Mat2, p: &Mat2, tol: Fx) -> (r: bool)
    ensures
        r == dare_converged(*p2, *p, tol),
{
    within_tol(p2.m11.sat_sub(p.m11), tol) && within_tol(p2.m12.sat_sub(p.m12), tol)
        && within_tol(p2.m21.sat_sub(p.m21), tol) && within_tol(p2.m22.sat_sub(p.m22), tol)
}

/// Iterate the Riccati recursion from `P = Q` until two consecutive
/// iterates agree within `tol`, for at most `max_iters` applications.
pub fn solve_dare(a: &Mat2, b: &Col2, q: &Mat2, r: Fx, tol: Fx, max_iters: u32) -> (res: Result<
    Mat2,
    SolveError,
>)
    ensures
        res == dare_run_spec(*a, *b, *q, r, tol, *q, max_iters as nat),
{
    let mut p: Mat2 = *q;
    let mut left: u32 = max_iters;
    loop
        invariant
            left <= max_iters,
            dare_run_spec(*a, *b, *q, r, tol, *q, max_iters as nat) == dare_run_spec(
                *a,
                *b,
                *q,
                r,
                tol,
                p,
                left as nat,
            ),
        decreases left,
    {
        if left == 0 {
            return Err(SolveError::DidNotConverge);
        }
        let pb = Col2 {
            x1: p.m11.sat_mul(b.x1).sat_add(p.m12.sat_mul(b.x2)),
            x2: p.m21.sat_mul(b.x1).sat_add(p.m22.sat_mul(b.x2)),
        };
        let s = r.sat_add(b.x1.sat_mul(pb.x1).sat_add(b.x2.sat_mul(pb.x2)));
        if s.raw == 0 {
            return Err(SolveError::SingularGainMatrix);
        }
        let p2 = dare_iterate(a, b, q, r, &p);
        if converged(&p2, &p, tol) {
            return Ok(p2);
        }
        p = p2;
        left = left - 1;
    }
}

/// Derive the state-feedback gain `K = (R + B^T P B)^-1 B^T P A` for the
/// system `(A, B)` under the cost weights `(Q, R)`.
pub fn compute_gain(a: &Mat2, b: &Col2, q: &Mat2, r: Fx, tol: Fx, max_iters: u32) -> (res: Result<
    GainRow,
    SolveError,
>)
    ensures
        res == gain_run_spec(*a, *b, *q, r, tol, max_iters as nat),
{
    let p = match solve_dare(a, b, q, r, tol, max_iters) {
        Ok(p) => p,
        Err(e) => {
            return Err(e);
        },
    };
    let pa = Mat2 {
        m11: p.m11.sat_mul(a.m11).sat_add(p.m12.sat_mul(a.m21)),
        m12: p.m11.sat_mul(a.m12).sat_add(p.m12.sat_mul(a.m22)),
        m21: p.m21.sat_mul(a.m11).sat_add(p.m22.sat_mul(a.m21)),
        m22: p.m21.sat_mul(a.m12).sat_add(p.m22.sat_mul(a.m22)),
    };
    let pb = Col2 {
        x1: p.m11.sat_mul(b.x1).sat_add(p.m12.sat_mul(b.x2)),
        x2: p.m21.sat_mul(b.x1).sat_add(p.m22.sat_mul(b.x2)),
    };
    let s = r.sat_add(b.x1.sat_mul(pb.x1).sat_add(b.x2.sat_mul(pb.x2)));
    if s.raw == 0 {
        return Err(SolveError::SingularGainMatrix);
    }
    let bpa1 = b.x1.sat_mul(pa.m11).sat_add(b.x2.sat_mul(pa.m21));
    let bpa2 = b.x1.sat_mul(pa.m12).sat_add(b.x2.sat_mul(pa.m22));
    Ok(GainRow { k1: bpa1.sat_div(s), k2: bpa2.sat_div(s) })
}

/// The discretized linear model of the pendulum about its current tangent,
/// built from the physical parameters and the shared tick and gravity
/// constants:
/// `A = [[1 + g/(2L) dt^2, dt - f/2 dt^2], [g/L dt, 1 - f dt]]`,
/// `B = [[c/2 dt^2], [c dt]]`.
pub open spec fn linearize_a_spec(params: PendulumParams) -> Mat2 {
    let dt = Fx { raw: DT_RAW };
    let g = Fx { raw: GRAVITY_RAW };
    let two = Fx { raw: TWO_RAW };
    let dt2 = s_mul(dt, dt);
    Mat2 {
        m11: s_add(Fx { raw: ONE_RAW }, s_mul(s_div(s_div(g, params.length), two), dt2)),
        m12: s_sub(dt, s_mul(s_div(params.friction, two), dt2)),
        m21: s_mul(s_div(g, params.length), dt),
        m22: s_sub(Fx { raw: ONE_RAW }, s_mul(params.friction, dt)),
    }
}

/// The discretized input column of the linear model.
pub open spec fn linearize_b_spec(params: PendulumParams) -> Col2 {
    let dt = Fx { raw: DT_RAW };
    let two = Fx { raw: TWO_RAW };
    let dt2 = s_mul(dt, dt);
    Col2 { x1: s_mul(s_div(params.control_power, two), dt2), x2: s_mul(params.control_power, dt) }
}

/// The LQR controller: the linearized model `(A, B)`, fixed at construction
/// time, and the externally tunable cost weights `(Q, R)` and set point.
#[derive(Clone, Copy, Debug, PartialEq, Eq, Structural)]
pub struct LqrController {
    pub set_point: Fx,
    pub a: Mat2,
    pub b: Col2,
    pub q: Mat2,
    pub r: Fx,
}

/// The control value of one LQR tick: recompute the gain fresh from
/// `(A, B, Q, R)` and feed back `u = -K (state - target)`; on a solver
/// failure hold the previous control value instead.
pub open spec fn lqr_control_spec(c: LqrController, s: PendulumState, prev: Fx) -> Fx {
    match gain_run_spec(c.a, c.b, c.q, c.r, Fx { raw: SOLVE_TOL_RAW }, SOLVE_MAX_ITERS as nat) {
        Ok(k) => s_neg(
            s_add(s_mul(k.k1, s_sub(s.angle, c.set_point)), s_mul(k.k2, s.angular_velocity)),
        ),
        Err(_) => prev,
    }
}

impl LqrController {
    /// A controller whose model is linearized once from the given physical
    /// parameters, with identity state cost, unit input cost and the given
    /// set point. If the parameters change later, the model keeps this
    /// construction-time linearization.
    pub fn from_params(params: &PendulumParams, set_point: Fx) -> (c: LqrController)
        requires
            params.length.raw != 0,
        ensures
            c.set_point == set_point,
            c.a == linearize_a_spec(*params),
            c.b == linearize_b_spec(*params),
            c.q == mat_identity(),
            c.r.raw == ONE_RAW,
    {
        let dt = Fx { raw: DT_RAW };
        let g = Fx { raw: GRAVITY_RAW };
        let two = Fx { raw: TWO_RAW };
        let dt2 = dt.sat_mul(dt);
        let a = Mat2 {
            m11: Fx { raw: ONE_RAW }.sat_add(g.sat_div(params.length).sat_div(two).sat_mul(dt2)),
            m12: dt.sat_sub(params.friction.sat_div(two).sat_mul(dt2)),
            m21: g.sat_div(params.length).sat_mul(dt),
            m22: Fx { raw: ONE_RAW }.sat_sub(params.friction.sat_mul(dt)),
        };
        let b = Col2 {
            x1: params.control_power.sat_div(two).sat_mul(dt2),
            x2: params.control_power.sat_mul(dt),
        };
        LqrController {
            set_point,
            a,
            b,
            q: Mat2 {
                m11: Fx { raw: ONE_RAW },
                m12: Fx { raw: 0 },
                m21: Fx { raw: 0 },
                m22: Fx { raw: ONE_RAW },
            },
            r: Fx { raw: ONE_RAW },
        }
    }

    /// Replace the cost weights: `Q = diag(pos_cost, vel_cost)`,
    /// `R = power_cost`. Takes effect at the very next tick, because the
    /// gain is recomputed fresh every tick.
    pub fn set_gains(&mut self, pos_cost: Fx, vel_cost: Fx, power_cost: Fx)
        ensures
            *final(self) == (LqrController {
                q: Mat2 { m11: pos_cost, m12: Fx { raw: 0 }, m21: Fx { raw: 0 }, m22: vel_cost },
                r: power_cost,
                ..*old(self)
            }),
    {
        self.q = Mat2 { m11: pos_cost, m12: Fx { raw: 0 }, m21: Fx { raw: 0 }, m22: vel_cost };
        self.r = power_cost;
    }

    /// One LQR tick: the raw control value before saturation, or the held
    /// previous value when the solver fails.
    pub fn compute(&self, state: &PendulumState, prev_control: Fx) -> (u: Fx)
        ensures
            u == lqr_control_spec(*self, *state, prev_control),
    {
        match compute_gain(
            &self.a,
            &self.b,
            &self.q,
            self.r,
            Fx { raw: SOLVE_TOL_RAW },
            SOLVE_MAX_ITERS,
        ) {
            Ok(k) => k.k1.sat_mul(state.angle.sat_sub(self.set_point)).sat_add(
                k.k2.sat_mul(state.angular_velocity),
            ).sat_neg(),
            Err(_) => prev_control,
        }
    }
}

} // verus!
