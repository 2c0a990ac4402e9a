//! The brachistochrone solver, as a verified request/response machine.
//!
//! The solve runs in four stages: the two endpoints are normalized so that
//! the higher one (smaller y, since gravity acts along +y) becomes the start;
//! Newton–Raphson solves f(theta) = k for the terminal rotation angle, where
//! k = delta_x / delta_y and f(theta) = (t - sin t) / (1 - cos t) with
//! t = tau * tanh(theta) compressing the search domain into (-tau, tau);
//! the curve scale rho = delta_y / (1 - cos(theta_max)) is derived; and the
//! cycloid is sampled into sample_count + 1 points starting exactly at the
//! normalized start.
//!
//! The library holds no floating-point type, so the machine delegates each
//! primitive binary64 operation to its driver: [`Solver::start`] and
//! [`Solver::step`] return an [`Action`] that either requests one operation
//! ([`Req`]) or delivers the final outcome. The driver computes the requested
//! operation on the bit patterns and hands the resulting bit pattern back to
//! [`Solver::step`]. Everything else — the order of the requested operations,
//! every comparison and finiteness test, the iteration cap, the error
//! taxonomy, and the shape of the sampled sequence — happens inside the
//! machine and is verified.

use vstd::prelude::*;

use crate::bits::abs_bits;
use crate::bits::finite_bits;
use crate::bits::is_finite_bits;
use crate::bits::is_zero_bits;
use crate::bits::key_eq;
use crate::bits::key_lt;
use crate::bits::lt_bits;
use crate::bits::eq_bits;
use crate::bits::abs_of_bits;
use crate::bits::zero_bits;
use crate::bits::lemma_key_order_antisymmetric;
use crate::bits::lemma_key_order_total;

verus! {

/// Newton–Raphson performs at most this many update steps.
pub const NEWTON_CAP: u32 = 100;

/// The default number of curve samples; the result then holds 257 points.
pub const DEFAULT_SAMPLE_COUNT: u32 = 256;

/// Bit pattern of the binary64 value 1.0.
pub const ONE_BITS: u64 = 0x3ff0_0000_0000_0000;

/// Bit pattern of the binary64 value 3.0.
pub const THREE_BITS: u64 = 0x4008_0000_0000_0000;

/// Bit pattern of the binary64 value closest to pi.
pub const PI_BITS: u64 = 0x4009_21fb_5444_2d18;

/// Bit pattern of the binary64 value closest to tau = 2 pi.
pub const TAU_BITS: u64 = 0x4019_21fb_5444_2d18;

/// Bit pattern of the default residual tolerance, the binary64 value
/// closest to 1e-6.
pub const DEFAULT_TOLERANCE_BITS: u64 = 0x3eb0_c6f7_a0b5_ed8d;

/// A point of the plane; each coordinate is the bit pattern of a binary64
/// value.
#[derive(Clone, Copy, Debug, PartialEq, Eq, Structural)]
pub struct Point {
    pub x: u64,
    pub y: u64,
}

/// The solved cycloid's terminal rotation angle and radius scale, as binary64
/// bit patterns.
#[derive(Clone, Copy, Debug, PartialEq, Eq, Structural)]
pub struct CurveParameters {
    pub theta_max: u64,
    pub rho: u64,
}

/// A successful solve: the curve parameters and the sampled points, ordered
/// from the normalized start towards the far endpoint.
#[derive(Clone, Debug, PartialEq)]
pub struct SolveResult {
    pub params: CurveParameters,
    pub points: Vec<Point>,
}

/// Why a solve failed. Every failure is terminal for the call: no partial
/// geometry is ever produced alongside an error.
#[derive(Clone, Copy, Debug, PartialEq, Eq, Structural)]
pub enum SolverError {
    /// The endpoints lie at equal height, or the solved angle leaves the
    /// curve scale undefined (cos(theta_max) equal to 1).
    DegenerateInput,
    /// Newton–Raphson exhausted its iteration cap without meeting the
    /// residual tolerance, or an update step was not finite.
    NonConvergent,
    /// A finished parameter (theta_max or rho) is NaN or infinite.
    NonFiniteResult,
}

/// One primitive binary64 operation the machine asks its driver to perform.
/// The driver must interpret each operand as a binary64 bit pattern, apply
/// the IEEE 754 operation, and return the result's bit pattern. `FromU32`
/// instead takes a plain unsigned integer in `a` and returns the bit pattern
/// of its binary64 value.
#[derive(Clone, Copy, Debug, PartialEq, Eq, Structural)]
pub enum PrimOp {
    /// a + b.
    Add,
    /// a - b.
    Sub,
    /// a * b.
    Mul,
    /// a / b.
    Div,
    /// sin(a); b is ignored.
    Sin,
    /// cos(a); b is ignored.
    Cos,
    /// tan(a); b is ignored.
    Tan,
    /// atan(a); b is ignored.
    Atan,
    /// tanh(a); b is ignored.
    Tanh,
    /// cosh(a); b is ignored.
    Cosh,
    /// The binary64 value of the unsigned integer held in `a`; b is ignored.
    FromU32,
}

/// A requested operation with its operands.
#[derive(Clone, Copy, Debug, PartialEq, Eq, Structural)]
pub struct Req {
    pub op: PrimOp,
    pub a: u64,
    pub b: u64,
}

/// What the machine wants next: either one primitive operation computed, or
/// nothing — the solve has finished with the carried outcome.
#[derive(Debug)]
pub enum Action {
    Compute(Req),
    Done(Result<SolveResult, SolverError>),
}

/// Which response the machine is waiting for.
#[derive(Clone, Copy, Debug)]
enum Phase {
    // Normalized offsets and the target ratio k.
    AwaitDx,
    AwaitDy,
    AwaitK,
    // Initial guess theta0 = atan(k / 3).
    AwaitGuessDiv,
    AwaitGuessAtan,
    // Evaluation of f(theta) = (t - sin t) / (1 - cos t), t = tau tanh(theta).
    FTanh,
    FScale,
    FSin,
    FNum,
    FCos,
    FDen,
    FQuot,
    FResid,
    // Evaluation of f'(theta) through the tanh substitution, then the update.
    DerivU,
    DerivTan,
    DerivQuot,
    DerivSin,
    DerivInner,
    DerivNum,
    DerivSin2,
    DerivCosh,
    DerivCosh2,
    DerivDen,
    DerivVal,
    DerivUpd,
    DerivNewTheta,
    // Curve scale rho = delta_y / (1 - cos(theta_max)).
    ConvCos,
    ConvOneCos,
    ConvRho,
    ConvNf,
    // Sampling of point i: theta_i = theta_max * (i / n), then
    // x = sx + rho (theta_i - sin theta_i), y = sy + rho (1 - cos theta_i).
    SampConv,
    SampQuot,
    SampTheta,
    SampSin,
    SampDiffX,
    SampScaleX,
    SampAddX,
    SampCos,
    SampDiffY,
    SampScaleY,
    SampAddY,
    Finished,
}

/// The residual bit pattern lies strictly within the tolerance: the key of
/// its absolute value is below the tolerance's key. A NaN residual has an
/// absolute value keyed above every finite tolerance, so it never counts as
/// within tolerance.
pub open spec fn resid_within(resid: u64, tol: u64) -> bool {
    key_lt(abs_bits(resid), tol)
}

/// The x coordinate of the normalized start: the endpoint with the smaller
/// (higher, under gravity along +y) y coordinate.
pub open spec fn norm_start_x(x0: u64, y0: u64, x1: u64, y1: u64) -> u64 {
    if key_lt(y0, y1) {
        x0
    } else {
        x1
    }
}

/// The y coordinate of the normalized start.
pub open spec fn norm_start_y(x0: u64, y0: u64, x1: u64, y1: u64) -> u64 {
    if key_lt(y0, y1) {
        y0
    } else {
        y1
    }
}

/// The x coordinate of the normalized end: the endpoint not chosen as start.
pub open spec fn norm_end_x(x0: u64, y0: u64, x1: u64, y1: u64) -> u64 {
    if key_lt(y0, y1) {
        x1
    } else {
        x0
    }
}

/// The y coordinate of the normalized end.
pub open spec fn norm_end_y(x0: u64, y0: u64, x1: u64, y1: u64) -> u64 {
    if key_lt(y0, y1) {
        y1
    } else {
        y0
    }
}

/// Normalization is symmetric in its two endpoints: when the endpoint
/// heights differ, a solve from (p0, p1) and a solve from (p1, p0) begin
/// from the same normalized start and end, hence describe the same curve
/// with the same parameters and the same sampled sequence.
pub proof fn lemma_normalization_symmetric(x0: u64, y0: u64, x1: u64, y1: u64)
    requires
        !key_eq(y0, y1),
    ensures
        norm_start_x(x0, y0, x1, y1) == norm_start_x(x1, y1, x0, y0),
        norm_start_y(x0, y0, x1, y1) == norm_start_y(x1, y1, x0, y0),
        norm_end_x(x0, y0, x1, y1) == norm_end_x(x1, y1, x0, y0),
        norm_end_y(x0, y0, x1, y1) == norm_end_y(x1, y1, x0, y0),
{
    lemma_key_order_total(y0, y1);
    lemma_key_order_antisymmetric(y0, y1);
}

/// The coordinate normalizer: orient the two endpoints so that the one with
/// the smaller y coordinate — the higher one, since gravity acts along +y —
/// becomes the curve's start and the other its end. Returns the start pair
/// followed by the end pair. Ties go to the second endpoint; callers reject
/// equal heights as degenerate before any geometry is built.
pub fn normalize_endpoints(x0: u64, y0: u64, x1: u64, y1: u64) -> (r: ((u64, u64), (u64, u64)))
    ensures
        r.0.0 == norm_start_x(x0, y0, x1, y1),
        r.0.1 == norm_start_y(x0, y0, x1, y1),
        r.1.0 == norm_end_x(x0, y0, x1, y1),
        r.1.1 == norm_end_y(x0, y0, x1, y1),
{
    if lt_bits(y0, y1) {
        ((x0, y0), (x1, y1))
    } else {
        ((x1, y1), (x0, y0))
    }
}

/// The solver machine. One value of it runs one solve; it holds no state
/// across solves and mutates nothing shared, so concurrent solves need no
/// coordination.
pub struct Solver {
    n: u32,
    tol: u64,
    sx: u64,
    sy: u64,
    ex: u64,
    ey: u64,
    dx: u64,
    dy: u64,
    k: u64,
    theta: u64,
    th: u64,
    t: u64,
    fnum: u64,
    fval: u64,
    resid: u64,
    du: u64,
    dq: u64,
    dsin: u64,
    dnum: u64,
    dsin2: u64,
    theta_max: u64,
    rho: u64,
    nf: u64,
    sth: u64,
    px: u64,
    iter: u32,
    i: u32,
    points: Vec<Point>,
    phase: Phase,
}

impl Solver {
    /// The requested number of curve samples.
    pub closed spec fn sample_count(self) -> u32 {
        self.n
    }

    /// The residual tolerance's bit pattern.
    pub closed spec fn tolerance(self) -> u64 {
        self.tol
    }

    /// The normalized start's x coordinate.
    pub closed spec fn start_x(self) -> u64 {
        self.sx
    }

    /// The normalized start's y coordinate.
    pub closed spec fn start_y(self) -> u64 {
        self.sy
    }

    /// The normalized end's x coordinate.
    pub closed spec fn end_x(self) -> u64 {
        self.ex
    }

    /// The normalized end's y coordinate.
    pub closed spec fn end_y(self) -> u64 {
        self.ey
    }

    /// The horizontal offset delta_x = end_x - start_x, once received.
    pub closed spec fn dx_value(self) -> u64 {
        self.dx
    }

    /// The vertical offset delta_y = end_y - start_y, once received.
    pub closed spec fn dy_value(self) -> u64 {
        self.dy
    }

    /// The target ratio k = delta_x / delta_y, once received.
    pub closed spec fn k_value(self) -> u64 {
        self.k
    }

    /// The current uncompressed Newton–Raphson iterate theta.
    pub closed spec fn theta_value(self) -> u64 {
        self.theta
    }

    /// tanh(theta) for the current iterate, once received.
    pub closed spec fn tanh_value(self) -> u64 {
        self.th
    }

    /// The numerator t - sin t of the current f evaluation, once received.
    pub closed spec fn f_num_value(self) -> u64 {
        self.fnum
    }

    /// The value f(theta) of the current iterate, once received.
    pub closed spec fn f_value(self) -> u64 {
        self.fval
    }

    /// The residual f(theta) - k of the current iterate, once received.
    pub closed spec fn residual_value(self) -> u64 {
        self.resid
    }

    /// The derivative's inner angle u = pi * tanh(theta), once received.
    pub closed spec fn deriv_u_value(self) -> u64 {
        self.du
    }

    /// The derivative's quotient u / tan(u), once received.
    pub closed spec fn deriv_quot_value(self) -> u64 {
        self.dq
    }

    /// sin(u) of the derivative evaluation, once received.
    pub closed spec fn deriv_sin_value(self) -> u64 {
        self.dsin
    }

    /// The derivative's numerator tau * (1 - u / tan(u)), once received.
    pub closed spec fn deriv_num_value(self) -> u64 {
        self.dnum
    }

    /// sin(u) squared of the derivative evaluation, once received.
    pub closed spec fn deriv_sin2_value(self) -> u64 {
        self.dsin2
    }

    /// The sample count as a binary64 value, once received.
    pub closed spec fn nf_value(self) -> u64 {
        self.nf
    }

    /// The angle theta_i = theta_max * (i / n) of the sample being built.
    pub closed spec fn sample_theta_value(self) -> u64 {
        self.sth
    }

    /// The finished x coordinate of the sample being built.
    pub closed spec fn sample_x_value(self) -> u64 {
        self.px
    }

    /// The points accumulated so far for the result.
    pub closed spec fn points_view(self) -> Seq<Point> {
        self.points@
    }

    /// How many Newton–Raphson updates have been applied so far.
    pub closed spec fn iterations(self) -> u32 {
        self.iter
    }

    /// The index of the curve sample being produced.
    pub closed spec fn sample_index(self) -> u32 {
        self.i
    }

    /// The compressed angle t = tau * tanh(theta) of the current iterate;
    /// on convergence it becomes theta_max.
    pub closed spec fn t_value(self) -> u64 {
        self.t
    }

    /// The solved terminal angle's bit pattern, once convergence was reached.
    pub closed spec fn theta_max_value(self) -> u64 {
        self.theta_max
    }

    /// The solved curve scale's bit pattern, once derived.
    pub closed spec fn rho_value(self) -> u64 {
        self.rho
    }

    /// The machine still expects a response; once false, the solve has
    /// delivered its outcome and the machine accepts no further step.
    pub closed spec fn in_progress(self) -> bool {
        !(self.phase is Finished)
    }

    /// The machine waits for the horizontal offset delta_x.
    pub closed spec fn awaiting_dx(self) -> bool {
        self.phase is AwaitDx
    }

    /// The machine waits for the vertical offset delta_y.
    pub closed spec fn awaiting_delta_y(self) -> bool {
        self.phase is AwaitDy
    }

    /// The machine waits for the target ratio k = delta_x / delta_y.
    pub closed spec fn awaiting_k(self) -> bool {
        self.phase is AwaitK
    }

    /// The machine waits for k / 3, the argument of the initial guess.
    pub closed spec fn awaiting_guess_quot(self) -> bool {
        self.phase is AwaitGuessDiv
    }

    /// The machine waits for the initial guess theta_0 = atan(k / 3).
    pub closed spec fn awaiting_guess(self) -> bool {
        self.phase is AwaitGuessAtan
    }

    /// The machine waits for tanh(theta) of the current iterate.
    pub closed spec fn awaiting_tanh(self) -> bool {
        self.phase is FTanh
    }

    /// The machine waits for the compressed angle t = tau * tanh(theta).
    pub closed spec fn awaiting_scale(self) -> bool {
        self.phase is FScale
    }

    /// The machine waits for sin t of the current f evaluation.
    pub closed spec fn awaiting_f_sin(self) -> bool {
        self.phase is FSin
    }

    /// The machine waits for the numerator t - sin t.
    pub closed spec fn awaiting_f_num(self) -> bool {
        self.phase is FNum
    }

    /// The machine waits for cos t of the current f evaluation.
    pub closed spec fn awaiting_f_cos(self) -> bool {
        self.phase is FCos
    }

    /// The machine waits for the denominator 1 - cos t.
    pub closed spec fn awaiting_f_den(self) -> bool {
        self.phase is FDen
    }

    /// The machine waits for the quotient f(theta).
    pub closed spec fn awaiting_f_quot(self) -> bool {
        self.phase is FQuot
    }

    /// The machine waits for the derivative's inner angle u = pi * tanh(theta).
    pub closed spec fn awaiting_deriv_u(self) -> bool {
        self.phase is DerivU
    }

    /// The machine waits for tan(u).
    pub closed spec fn awaiting_deriv_tan(self) -> bool {
        self.phase is DerivTan
    }

    /// The machine waits for u / tan(u).
    pub closed spec fn awaiting_deriv_quot(self) -> bool {
        self.phase is DerivQuot
    }

    /// The machine waits for sin(u).
    pub closed spec fn awaiting_deriv_sin(self) -> bool {
        self.phase is DerivSin
    }

    /// The machine waits for 1 - u / tan(u).
    pub closed spec fn awaiting_deriv_inner(self) -> bool {
        self.phase is DerivInner
    }

    /// The machine waits for the derivative's numerator tau * (1 - u / tan(u)).
    pub closed spec fn awaiting_deriv_num(self) -> bool {
        self.phase is DerivNum
    }

    /// The machine waits for sin(u) squared.
    pub closed spec fn awaiting_deriv_sin2(self) -> bool {
        self.phase is DerivSin2
    }

    /// The machine waits for cosh(theta).
    pub closed spec fn awaiting_deriv_cosh(self) -> bool {
        self.phase is DerivCosh
    }

    /// The machine waits for cosh(theta) squared.
    pub closed spec fn awaiting_deriv_cosh2(self) -> bool {
        self.phase is DerivCosh2
    }

    /// The machine waits for the derivative's denominator.
    pub closed spec fn awaiting_deriv_den(self) -> bool {
        self.phase is DerivDen
    }

    /// The machine waits for the derivative f'(theta).
    pub closed spec fn awaiting_derivative(self) -> bool {
        self.phase is DerivVal
    }

    /// The machine waits for the updated iterate theta - update.
    pub closed spec fn awaiting_new_theta(self) -> bool {
        self.phase is DerivNewTheta
    }

    /// The machine waits for cos(theta_max).
    pub closed spec fn awaiting_scale_cos(self) -> bool {
        self.phase is ConvCos
    }

    /// The machine waits for the sample count as a binary64 value.
    pub closed spec fn awaiting_count(self) -> bool {
        self.phase is ConvNf
    }

    /// The machine waits for the sample index as a binary64 value.
    pub closed spec fn awaiting_sample_ratio(self) -> bool {
        self.phase is SampConv
    }

    /// The machine waits for the fraction i / n of the current sample.
    pub closed spec fn awaiting_sample_frac(self) -> bool {
        self.phase is SampQuot
    }

    /// The machine waits for the sample angle theta_i = theta_max * (i / n).
    pub closed spec fn awaiting_sample_theta(self) -> bool {
        self.phase is SampTheta
    }

    /// The machine waits for sin(theta_i).
    pub closed spec fn awaiting_sample_sin(self) -> bool {
        self.phase is SampSin
    }

    /// The machine waits for theta_i - sin(theta_i).
    pub closed spec fn awaiting_sample_dx(self) -> bool {
        self.phase is SampDiffX
    }

    /// The machine waits for rho * (theta_i - sin(theta_i)).
    pub closed spec fn awaiting_sample_xoff(self) -> bool {
        self.phase is SampScaleX
    }

    /// The machine waits for the sample's x coordinate.
    pub closed spec fn awaiting_sample_x(self) -> bool {
        self.phase is SampAddX
    }

    /// The machine waits for cos(theta_i).
    pub closed spec fn awaiting_sample_cos(self) -> bool {
        self.phase is SampCos
    }

    /// The machine waits for 1 - cos(theta_i).
    pub closed spec fn awaiting_sample_dy(self) -> bool {
        self.phase is SampDiffY
    }

    /// The machine waits for rho * (1 - cos(theta_i)).
    pub closed spec fn awaiting_sample_yoff(self) -> bool {
        self.phase is SampScaleY
    }

    /// The machine waits for the residual f(theta) - k.
    pub closed spec fn awaiting_residual(self) -> bool {
        self.phase is FResid
    }

    /// The machine waits for the Newton update (f(theta) - k) / f'(theta).
    pub closed spec fn awaiting_update(self) -> bool {
        self.phase is DerivUpd
    }

    /// The machine waits for 1 - cos(theta_max).
    pub closed spec fn awaiting_one_cos(self) -> bool {
        self.phase is ConvOneCos
    }

    /// The machine waits for the curve scale rho.
    pub closed spec fn awaiting_rho(self) -> bool {
        self.phase is ConvRho
    }

    /// The machine waits for the y coordinate of the current sample.
    pub closed spec fn awaiting_sample_y(self) -> bool {
        self.phase is SampAddY
    }

    /// Which of the solve's stages the machine is in, in their forward
    /// order: 0 while the normalized offsets and the initial guess are
    /// gathered, 1 while Newton–Raphson runs, 2 while the curve scale is
    /// derived, 3 while the points are sampled, and 4 once the outcome has
    /// been delivered. `step` never moves it backwards: data flows strictly
    /// forward through the stages, and no stage feeds an earlier one.
    pub closed spec fn stage_index(self) -> int {
        match self.phase {
            Phase::AwaitDx | Phase::AwaitDy | Phase::AwaitK | Phase::AwaitGuessDiv
                | Phase::AwaitGuessAtan => 0,
            Phase::FTanh | Phase::FScale | Phase::FSin | Phase::FNum | Phase::FCos
                | Phase::FDen | Phase::FQuot | Phase::FResid | Phase::DerivU | Phase::DerivTan
                | Phase::DerivQuot | Phase::DerivSin | Phase::DerivInner | Phase::DerivNum
                | Phase::DerivSin2 | Phase::DerivCosh | Phase::DerivCosh2 | Phase::DerivDen
                | Phase::DerivVal | Phase::DerivUpd | Phase::DerivNewTheta => 1,
            Phase::ConvCos | Phase::ConvOneCos | Phase::ConvRho | Phase::ConvNf => 2,
            Phase::SampConv | Phase::SampQuot | Phase::SampTheta | Phase::SampSin
                | Phase::SampDiffX | Phase::SampScaleX | Phase::SampAddX | Phase::SampCos
                | Phase::SampDiffY | Phase::SampScaleY | Phase::SampAddY => 3,
            Phase::Finished => 4,
        }
    }

    /// Well-formedness: the counters stay within their bounds and the point
    /// buffer holds exactly the samples produced so far, led by the
    /// normalized start.
    pub closed spec fn inv(self) -> bool {
        &&& 1 <= self.n
        &&& self.n < 0xffff_ffff_u32
        &&& finite_bits(self.tol)
        &&& match self.phase {
            Phase::AwaitDx | Phase::AwaitDy | Phase::AwaitK | Phase::AwaitGuessDiv
                | Phase::AwaitGuessAtan => self.points@.len() == 0,
            Phase::FTanh | Phase::FScale | Phase::FSin | Phase::FNum | Phase::FCos
                | Phase::FDen | Phase::FQuot | Phase::FResid => self.points@.len() == 0
                && self.iter <= NEWTON_CAP,
            Phase::DerivU | Phase::DerivTan | Phase::DerivQuot | Phase::DerivSin
                | Phase::DerivInner | Phase::DerivNum | Phase::DerivSin2 | Phase::DerivCosh
                | Phase::DerivCosh2 | Phase::DerivDen | Phase::DerivVal | Phase::DerivUpd
                | Phase::DerivNewTheta => self.points@.len() == 0 && self.iter < NEWTON_CAP,
            Phase::ConvCos | Phase::ConvOneCos | Phase::ConvRho => self.points@.len() == 0
                && finite_bits(self.theta_max),
            Phase::ConvNf => self.points@.len() == 0 && finite_bits(self.theta_max)
                && finite_bits(self.rho),
            Phase::SampConv | Phase::SampQuot | Phase::SampTheta | Phase::SampSin
                | Phase::SampDiffX | Phase::SampScaleX | Phase::SampAddX | Phase::SampCos
                | Phase::SampDiffY | Phase::SampScaleY | Phase::SampAddY => 1 <= self.i
                && self.i <= self.n && self.points@.len() == self.i && self.points@[0] == (Point {
                x: self.sx,
                y: self.sy,
            }) && finite_bits(self.theta_max) && finite_bits(self.rho),
            Phase::Finished => true,
        }
    }

    /// An upper bound on the number of responses the machine will still
    /// consume; every step that requests another operation strictly lowers
    /// it, so a driver loop always terminates. It adds up the work ahead:
    /// 5 responses gather the offsets, k, and the initial guess; each of the
    /// at most 101 Newton rounds consumes at most 21 (8 for f and the
    /// residual, 13 for f' and the update); 4 derive the curve scale and the
    /// sample count; and each of the n samples consumes 11.
    pub closed spec fn budget(self) -> int {
        let n = self.n as int;
        let it = self.iter as int;
        let i = self.i as int;
        match self.phase {
            Phase::AwaitDx => 5 + 2121 + 4 + 11 * n,
            Phase::AwaitDy => 4 + 2121 + 4 + 11 * n,
            Phase::AwaitK => 3 + 2121 + 4 + 11 * n,
            Phase::AwaitGuessDiv => 2 + 2121 + 4 + 11 * n,
            Phase::AwaitGuessAtan => 1 + 2121 + 4 + 11 * n,
            Phase::FTanh => (100 - it) * 21 + 21 + 4 + 11 * n,
            Phase::FScale => (100 - it) * 21 + 20 + 4 + 11 * n,
            Phase::FSin => (100 - it) * 21 + 19 + 4 + 11 * n,
            Phase::FNum => (100 - it) * 21 + 18 + 4 + 11 * n,
            Phase::FCos => (100 - it) * 21 + 17 + 4 + 11 * n,
            Phase::FDen => (100 - it) * 21 + 16 + 4 + 11 * n,
            Phase::FQuot => (100 - it) * 21 + 15 + 4 + 11 * n,
            Phase::FResid => (100 - it) * 21 + 14 + 4 + 11 * n,
            Phase::DerivU => (100 - it) * 21 + 13 + 4 + 11 * n,
            Phase::DerivTan => (100 - it) * 21 + 12 + 4 + 11 * n,
            Phase::DerivQuot => (100 - it) * 21 + 11 + 4 + 11 * n,
            Phase::DerivSin => (100 - it) * 21 + 10 + 4 + 11 * n,
            Phase::DerivInner => (100 - it) * 21 + 9 + 4 + 11 * n,
            Phase::DerivNum => (100 - it) * 21 + 8 + 4 + 11 * n,
            Phase::DerivSin2 => (100 - it) * 21 + 7 + 4 + 11 * n,
            Phase::DerivCosh => (100 - it) * 21 + 6 + 4 + 11 * n,
            Phase::DerivCosh2 => (100 - it) * 21 + 5 + 4 + 11 * n,
            Phase::DerivDen => (100 - it) * 21 + 4 + 4 + 11 * n,
            Phase::DerivVal => (100 - it) * 21 + 3 + 4 + 11 * n,
            Phase::DerivUpd => (100 - it) * 21 + 2 + 4 + 11 * n,
            Phase::DerivNewTheta => (100 - it) * 21 + 1 + 4 + 11 * n,
            Phase::ConvCos => 4 + 11 * n,
            Phase::ConvOneCos => 3 + 11 * n,
            Phase::ConvRho => 2 + 11 * n,
            Phase::ConvNf => 1 + 11 * n,
            Phase::SampConv => 11 * (n - i) + 11,
            Phase::SampQuot => 11 * (n - i) + 10,
            Phase::SampTheta => 11 * (n - i) + 9,
            Phase::SampSin => 11 * (n - i) + 8,
            Phase::SampDiffX => 11 * (n - i) + 7,
            Phase::SampScaleX => 11 * (n - i) + 6,
            Phase::SampAddX => 11 * (n - i) + 5,
            Phase::SampCos => 11 * (n - i) + 4,
            Phase::SampDiffY => 11 * (n - i) + 3,
            Phase::SampScaleY => 11 * (n - i) + 2,
            Phase::SampAddY => 11 * (n - i) + 1,
            Phase::Finished => 0,
        }
    }

    /// A well-formed machine never owes a negative amount of work: with the
    /// strictly falling budget of `step`, this bounds every solve by a fixed
    /// number of requested operations.
    pub proof fn lemma_budget_nonneg(self)
        requires
            self.inv(),
        ensures
            self.budget() >= 0,
    {
    }

    /// Begin a solve of the boundary-value problem for the endpoints
    /// (x0, y0) and (x1, y1), given as binary64 bit patterns of finite
    /// values.
    ///
    /// Endpoints at equal height are degenerate — no descending cycloid
    /// joins them — and are rejected at once. Otherwise the endpoint with
    /// the smaller y becomes the start, and the machine begins requesting
    /// operations: first the offset delta_x = end_x - start_x.
    pub fn start(x0: u64, y0: u64, x1: u64, y1: u64, sample_count: u32, tolerance: u64) -> (r: (
        Solver,
        Action,
    ))
        requires
            finite_bits(x0),
            finite_bits(y0),
            finite_bits(x1),
            finite_bits(y1),
            1 <= sample_count < 0xffff_ffff_u32,
            finite_bits(tolerance),
        ensures
            r.0.inv(),
            r.0.sample_count() == sample_count,
            r.0.tolerance() == tolerance,
            (r.1 == Action::Done(Result::<SolveResult, SolverError>::Err(
                SolverError::DegenerateInput,
            ))) <==> key_eq(y0, y1),
            r.0.in_progress() <==> !key_eq(y0, y1),
            !key_eq(y0, y1) ==> {
                &&& r.0.awaiting_dx()
                &&& r.0.start_x() == norm_start_x(x0, y0, x1, y1)
                &&& r.0.start_y() == norm_start_y(x0, y0, x1, y1)
                &&& r.0.end_x() == norm_end_x(x0, y0, x1, y1)
                &&& r.0.end_y() == norm_end_y(x0, y0, x1, y1)
                &&& r.1 == Action::Compute(
                    (Req {
                        op: PrimOp::Sub,
                        a: norm_end_x(x0, y0, x1, y1),
                        b: norm_start_x(x0, y0, x1, y1),
                    }),
                )
                &&& r.0.budget() == 2130 + 11 * (sample_count as int)
                &&& r.0.stage_index() == 0
                &&& r.0.iterations() == 0
                &&& r.0.points_view() == Seq::<Point>::empty()
            },
    {
        let degenerate = eq_bits(y0, y1);
        let ((sx, sy), (ex, ey)) = normalize_endpoints(x0, y0, x1, y1);
        let solver = Solver {
            n: sample_count,
            tol: tolerance,
            sx,
            sy,
            ex,
            ey,
            dx: 0,
            dy: 0,
            k: 0,
            theta: 0,
            th: 0,
            t: 0,
            fnum: 0,
            fval: 0,
            resid: 0,
            du: 0,
            dq: 0,
            dsin: 0,
            dnum: 0,
            dsin2: 0,
            theta_max: 0,
            rho: 0,
            nf: 0,
            sth: 0,
            px: 0,
            iter: 0,
            i: 0,
            points: Vec::new(),
            phase: if degenerate {
                Phase::Finished
            } else {
                Phase::AwaitDx
            },
        };
        if degenerate {
            (solver, Action::Done(Err(SolverError::DegenerateInput)))
        } else {
            let req = Req { op: PrimOp::Sub, a: ex, b: sx };
            (solver, Action::Compute(req))
        }
    }

    /// Consume the driver's response to the pending request and move on.
    ///
    /// The returned action either requests the next primitive operation —
    /// and then the machine's remaining budget has strictly fallen — or
    /// delivers the outcome of the solve. A successful outcome holds exactly
    /// sample_count + 1 points whose first element is exactly the normalized
    /// start, and finite curve parameters. Each error is delivered if and
    /// only if its cause was just observed: a zero vertical offset or a zero
    /// 1 - cos(theta_max) for DegenerateInput; an exhausted iteration cap or
    /// a non-finite update for NonConvergent; a non-finite terminal angle or
    /// curve scale for NonFiniteResult.
    ///
    /// The contract is a complete transition specification: for every
    /// waiting state it pins which value the response is recorded as, which
    /// state the machine waits in next, and — operand for operand — which
    /// operation it requests there. Given the driver's responses, the whole
    /// solve is therefore determined by what is stated here.
    pub fn step(self, resp: u64) -> (r: (Solver, Action))
        requires
            self.inv(),
            self.in_progress(),
        ensures
            r.0.inv(),
            r.0.sample_count() == self.sample_count(),
            r.0.tolerance() == self.tolerance(),
            r.0.start_x() == self.start_x(),
            r.0.start_y() == self.start_y(),
            r.0.stage_index() >= self.stage_index(),
            self.awaiting_dx() ==> r.0.awaiting_delta_y(),
            (self.awaiting_delta_y() && !zero_bits(resp)) ==> r.0.awaiting_k(),
            self.awaiting_k() ==> r.0.awaiting_guess_quot(),
            self.awaiting_guess_quot() ==> r.0.awaiting_guess(),
            self.awaiting_guess() ==> r.0.awaiting_tanh(),
            self.awaiting_tanh() ==> r.0.awaiting_scale(),
            self.awaiting_scale() ==> r.0.awaiting_f_sin(),
            self.awaiting_f_sin() ==> r.0.awaiting_f_num(),
            self.awaiting_f_num() ==> r.0.awaiting_f_cos(),
            self.awaiting_f_cos() ==> r.0.awaiting_f_den(),
            self.awaiting_f_den() ==> r.0.awaiting_f_quot(),
            self.awaiting_f_quot() ==> r.0.awaiting_residual(),
            (self.awaiting_residual() && resid_within(resp, self.tolerance()) && finite_bits(
                self.t_value(),
            )) ==> r.0.awaiting_scale_cos(),
            (self.awaiting_residual() && !resid_within(resp, self.tolerance())
                && self.iterations() < NEWTON_CAP) ==> r.0.awaiting_deriv_u(),
            self.awaiting_deriv_u() ==> r.0.awaiting_deriv_tan(),
            self.awaiting_deriv_tan() ==> r.0.awaiting_deriv_quot(),
            self.awaiting_deriv_quot() ==> r.0.awaiting_deriv_sin(),
            self.awaiting_deriv_sin() ==> r.0.awaiting_deriv_inner(),
            self.awaiting_deriv_inner() ==> r.0.awaiting_deriv_num(),
            self.awaiting_deriv_num() ==> r.0.awaiting_deriv_sin2(),
            self.awaiting_deriv_sin2() ==> r.0.awaiting_deriv_cosh(),
            self.awaiting_deriv_cosh() ==> r.0.awaiting_deriv_cosh2(),
            self.awaiting_deriv_cosh2() ==> r.0.awaiting_deriv_den(),
            self.awaiting_deriv_den() ==> r.0.awaiting_derivative(),
            self.awaiting_derivative() ==> r.0.awaiting_update(),
            (self.awaiting_update() && finite_bits(resp)) ==> r.0.awaiting_new_theta(),
            self.awaiting_new_theta() ==> r.0.awaiting_tanh(),
            self.awaiting_scale_cos() ==> r.0.awaiting_one_cos(),
            (self.awaiting_one_cos() && !zero_bits(resp)) ==> r.0.awaiting_rho(),
            (self.awaiting_rho() && finite_bits(resp)) ==> r.0.awaiting_count(),
            self.awaiting_count() ==> r.0.awaiting_sample_ratio(),
            self.awaiting_sample_ratio() ==> r.0.awaiting_sample_frac(),
            self.awaiting_sample_frac() ==> r.0.awaiting_sample_theta(),
            self.awaiting_sample_theta() ==> r.0.awaiting_sample_sin(),
            self.awaiting_sample_sin() ==> r.0.awaiting_sample_dx(),
            self.awaiting_sample_dx() ==> r.0.awaiting_sample_xoff(),
            self.awaiting_sample_xoff() ==> r.0.awaiting_sample_x(),
            self.awaiting_sample_x() ==> r.0.awaiting_sample_cos(),
            self.awaiting_sample_cos() ==> r.0.awaiting_sample_dy(),
            self.awaiting_sample_dy() ==> r.0.awaiting_sample_yoff(),
            self.awaiting_sample_yoff() ==> r.0.awaiting_sample_y(),
            (self.awaiting_sample_y() && self.sample_index() < self.sample_count())
                ==> r.0.awaiting_sample_ratio(),
            (r.1 is Compute) ==> r.0.in_progress() && r.0.budget() < self.budget(),
            (r.1 is Done) ==> !r.0.in_progress(),
            (r.1 == Action::Done(Result::<SolveResult, SolverError>::Err(
                SolverError::DegenerateInput,
            ))) <==> ((self.awaiting_delta_y() || self.awaiting_one_cos()) && zero_bits(resp)),
            (r.1 == Action::Done(Result::<SolveResult, SolverError>::Err(
                SolverError::NonConvergent,
            ))) <==> ((self.awaiting_residual() && !resid_within(resp, self.tolerance())
                && self.iterations() == NEWTON_CAP) || (self.awaiting_update() && !finite_bits(
                resp,
            ))),
            (r.1 == Action::Done(Result::<SolveResult, SolverError>::Err(
                SolverError::NonFiniteResult,
            ))) <==> ((self.awaiting_residual() && resid_within(resp, self.tolerance())
                && !finite_bits(self.t_value())) || (self.awaiting_rho() && !finite_bits(resp))),
            r.0.dx_value() == if self.awaiting_dx() {
                resp
            } else {
                self.dx_value()
            },
            r.0.dy_value() == if self.awaiting_delta_y() && !zero_bits(resp) {
                resp
            } else {
                self.dy_value()
            },
            r.0.k_value() == if self.awaiting_k() {
                resp
            } else {
                self.k_value()
            },
            r.0.theta_value() == if self.awaiting_guess() || self.awaiting_new_theta() {
                resp
            } else {
                self.theta_value()
            },
            r.0.tanh_value() == if self.awaiting_tanh() {
                resp
            } else {
                self.tanh_value()
            },
            r.0.t_value() == if self.awaiting_scale() {
                resp
            } else {
                self.t_value()
            },
            r.0.f_num_value() == if self.awaiting_f_num() {
                resp
            } else {
                self.f_num_value()
            },
            r.0.f_value() == if self.awaiting_f_quot() {
                resp
            } else {
                self.f_value()
            },
            r.0.residual_value() == if self.awaiting_residual() {
                resp
            } else {
                self.residual_value()
            },
            r.0.theta_max_value() == if self.awaiting_residual() && resid_within(
                resp,
                self.tolerance(),
            ) && finite_bits(self.t_value()) {
                self.t_value()
            } else {
                self.theta_max_value()
            },
            r.0.rho_value() == if self.awaiting_rho() && finite_bits(resp) {
                resp
            } else {
                self.rho_value()
            },
            r.0.deriv_u_value() == if self.awaiting_deriv_u() {
                resp
            } else {
                self.deriv_u_value()
            },
            r.0.deriv_quot_value() == if self.awaiting_deriv_quot() {
                resp
            } else {
                self.deriv_quot_value()
            },
            r.0.deriv_sin_value() == if self.awaiting_deriv_sin() {
                resp
            } else {
                self.deriv_sin_value()
            },
            r.0.deriv_num_value() == if self.awaiting_deriv_num() {
                resp
            } else {
                self.deriv_num_value()
            },
            r.0.deriv_sin2_value() == if self.awaiting_deriv_sin2() {
                resp
            } else {
                self.deriv_sin2_value()
            },
            r.0.nf_value() == if self.awaiting_count() {
                resp
            } else {
                self.nf_value()
            },
            r.0.sample_theta_value() == if self.awaiting_sample_theta() {
                resp
            } else {
                self.sample_theta_value()
            },
            r.0.sample_x_value() == if self.awaiting_sample_x() {
                resp
            } else {
                self.sample_x_value()
            },
            r.0.iterations() == if self.awaiting_guess() {
                0u32
            } else if self.awaiting_new_theta() {
                (self.iterations() + 1) as u32
            } else {
                self.iterations()
            },
            r.0.sample_index() == if self.awaiting_count() {
                1u32
            } else if self.awaiting_sample_y() && self.sample_index() < self.sample_count() {
                (self.sample_index() + 1) as u32
            } else {
                self.sample_index()
            },
            (r.1 is Compute) ==> r.0.points_view() == if self.awaiting_count() {
                self.points_view().push((Point { x: self.start_x(), y: self.start_y() }))
            } else if self.awaiting_sample_y() {
                self.points_view().push((Point { x: self.sample_x_value(), y: resp }))
            } else {
                self.points_view()
            },
            self.awaiting_dx() ==> r.1 == Action::Compute(
                (Req { op: PrimOp::Sub, a: self.end_y(), b: self.start_y() }),
            ),
            (self.awaiting_delta_y() && !zero_bits(resp)) ==> r.1 == Action::Compute(
                (Req { op: PrimOp::Div, a: self.dx_value(), b: resp }),
            ),
            self.awaiting_k() ==> r.1 == Action::Compute(
                (Req { op: PrimOp::Div, a: resp, b: THREE_BITS }),
            ),
            self.awaiting_guess_quot() ==> r.1 == Action::Compute(
                (Req { op: PrimOp::Atan, a: resp, b: 0 }),
            ),
            self.awaiting_guess() ==> r.1 == Action::Compute(
                (Req { op: PrimOp::Tanh, a: resp, b: 0 }),
            ),
            self.awaiting_tanh() ==> r.1 == Action::Compute(
                (Req { op: PrimOp::Mul, a: TAU_BITS, b: resp }),
            ),
            self.awaiting_scale() ==> r.1 == Action::Compute(
                (Req { op: PrimOp::Sin, a: resp, b: 0 }),
            ),
            self.awaiting_f_sin() ==> r.1 == Action::Compute(
                (Req { op: PrimOp::Sub, a: self.t_value(), b: resp }),
            ),
            self.awaiting_f_num() ==> r.1 == Action::Compute(
                (Req { op: PrimOp::Cos, a: self.t_value(), b: 0 }),
            ),
            self.awaiting_f_cos() ==> r.1 == Action::Compute(
                (Req { op: PrimOp::Sub, a: ONE_BITS, b: resp }),
            ),
            self.awaiting_f_den() ==> r.1 == Action::Compute(
                (Req { op: PrimOp::Div, a: self.f_num_value(), b: resp }),
            ),
            self.awaiting_f_quot() ==> r.1 == Action::Compute(
                (Req { op: PrimOp::Sub, a: resp, b: self.k_value() }),
            ),
            (self.awaiting_residual() && resid_within(resp, self.tolerance()) && finite_bits(
                self.t_value(),
            )) ==> r.1 == Action::Compute((Req { op: PrimOp::Cos, a: self.t_value(), b: 0 })),
            (self.awaiting_residual() && !resid_within(resp, self.tolerance())
                && self.iterations() < NEWTON_CAP) ==> r.1 == Action::Compute(
                (Req { op: PrimOp::Mul, a: PI_BITS, b: self.tanh_value() }),
            ),
            self.awaiting_deriv_u() ==> r.1 == Action::Compute(
                (Req { op: PrimOp::Tan, a: resp, b: 0 }),
            ),
            self.awaiting_deriv_tan() ==> r.1 == Action::Compute(
                (Req { op: PrimOp::Div, a: self.deriv_u_value(), b: resp }),
            ),
            self.awaiting_deriv_quot() ==> r.1 == Action::Compute(
                (Req { op: PrimOp::Sin, a: self.deriv_u_value(), b: 0 }),
            ),
            self.awaiting_deriv_sin() ==> r.1 == Action::Compute(
                (Req { op: PrimOp::Sub, a: ONE_BITS, b: self.deriv_quot_value() }),
            ),
            self.awaiting_deriv_inner() ==> r.1 == Action::Compute(
                (Req { op: PrimOp::Mul, a: TAU_BITS, b: resp }),
            ),
            self.awaiting_deriv_num() ==> r.1 == Action::Compute(
                (Req { op: PrimOp::Mul, a: self.deriv_sin_value(), b: self.deriv_sin_value() }),
            ),
            self.awaiting_deriv_sin2() ==> r.1 == Action::Compute(
                (Req { op: PrimOp::Cosh, a: self.theta_value(), b: 0 }),
            ),
            self.awaiting_deriv_cosh() ==> r.1 == Action::Compute(
                (Req { op: PrimOp::Mul, a: resp, b: resp }),
            ),
            self.awaiting_deriv_cosh2() ==> r.1 == Action::Compute(
                (Req { op: PrimOp::Mul, a: self.deriv_sin2_value(), b: resp }),
            ),
            self.awaiting_deriv_den() ==> r.1 == Action::Compute(
                (Req { op: PrimOp::Div, a: self.deriv_num_value(), b: resp }),
            ),
            self.awaiting_derivative() ==> r.1 == Action::Compute(
                (Req { op: PrimOp::Div, a: self.residual_value(), b: resp }),
            ),
            (self.awaiting_update() && finite_bits(resp)) ==> r.1 == Action::Compute(
                (Req { op: PrimOp::Sub, a: self.theta_value(), b: resp }),
            ),
            self.awaiting_new_theta() ==> r.1 == Action::Compute(
                (Req { op: PrimOp::Tanh, a: resp, b: 0 }),
            ),
            self.awaiting_scale_cos() ==> r.1 == Action::Compute(
                (Req { op: PrimOp::Sub, a: ONE_BITS, b: resp }),
            ),
            (self.awaiting_one_cos() && !zero_bits(resp)) ==> r.1 == Action::Compute(
                (Req { op: PrimOp::Div, a: self.dy_value(), b: resp }),
            ),
            (self.awaiting_rho() && finite_bits(resp)) ==> r.1 == Action::Compute(
                (Req { op: PrimOp::FromU32, a: self.sample_count() as u64, b: 0 }),
            ),
            self.awaiting_count() ==> r.1 == Action::Compute(
                (Req { op: PrimOp::FromU32, a: 1, b: 0 }),
            ),
            self.awaiting_sample_ratio() ==> r.1 == Action::Compute(
                (Req { op: PrimOp::Div, a: resp, b: self.nf_value() }),
            ),
            self.awaiting_sample_frac() ==> r.1 == Action::Compute(
                (Req { op: PrimOp::Mul, a: self.theta_max_value(), b: resp }),
            ),
            self.awaiting_sample_theta() ==> r.1 == Action::Compute(
                (Req { op: PrimOp::Sin, a: resp, b: 0 }),
            ),
            self.awaiting_sample_sin() ==> r.1 == Action::Compute(
                (Req { op: PrimOp::Sub, a: self.sample_theta_value(), b: resp }),
            ),
            self.awaiting_sample_dx() ==> r.1 == Action::Compute(
                (Req { op: PrimOp::Mul, a: self.rho_value(), b: resp }),
            ),
            self.awaiting_sample_xoff() ==> r.1 == Action::Compute(
                (Req { op: PrimOp::Add, a: self.start_x(), b: resp }),
            ),
            self.awaiting_sample_x() ==> r.1 == Action::Compute(
                (Req { op: PrimOp::Cos, a: self.sample_theta_value(), b: 0 }),
            ),
            self.awaiting_sample_cos() ==> r.1 == Action::Compute(
                (Req { op: PrimOp::Sub, a: ONE_BITS, b: resp }),
            ),
            self.awaiting_sample_dy() ==> r.1 == Action::Compute(
                (Req { op: PrimOp::Mul, a: self.rho_value(), b: resp }),
            ),
            self.awaiting_sample_yoff() ==> r.1 == Action::Compute(
                (Req { op: PrimOp::Add, a: self.start_y(), b: resp }),
            ),
            (self.awaiting_sample_y() && self.sample_index() < self.sample_count()) ==> r.1
                == Action::Compute(
                (Req { op: PrimOp::FromU32, a: (self.sample_index() + 1) as u64, b: 0 }),
            ),
            r.1 matches Action::Done(Ok(out)) ==> {
                &&& self.awaiting_sample_y()
                &&& self.sample_index() == self.sample_count()
                &&& out.points@ == self.points_view().push(
                    (Point { x: self.sample_x_value(), y: resp }),
                )
                &&& out.points@.len() == self.sample_count() + 1
                &&& out.points@[0] == (Point { x: self.start_x(), y: self.start_y() })
                &&& out.params.theta_max == self.theta_max_value()
                &&& out.params.rho == self.rho_value()
                &&& finite_bits(out.params.theta_max)
                &&& finite_bits(out.params.rho)
            },
    {
        let mut s = self;
        match s.phase {
            Phase::AwaitDx => {
                s.dx = resp;
                s.phase = Phase::AwaitDy;
                let req = Req { op: PrimOp::Sub, a: s.ey, b: s.sy };
                (s, Action::Compute(req))
            },
            Phase::AwaitDy => {
                if is_zero_bits(resp) {
                    s.phase = Phase::Finished;
                    (s, Action::Done(Err(SolverError::DegenerateInput)))
                } else {
                    s.dy = resp;
                    s.phase = Phase::AwaitK;
                    let req = Req { op: PrimOp::Div, a: s.dx, b: s.dy };
                    (s, Action::Compute(req))
                }
            },
            Phase::AwaitK => {
                s.k = resp;
                s.phase = Phase::AwaitGuessDiv;
                let req = Req { op: PrimOp::Div, a: s.k, b: THREE_BITS };
                (s, Action::Compute(req))
            },
            Phase::AwaitGuessDiv => {
                s.phase = Phase::AwaitGuessAtan;
                let req = Req { op: PrimOp::Atan, a: resp, b: 0 };
                (s, Action::Compute(req))
            },
            Phase::AwaitGuessAtan => {
                s.theta = resp;
                s.iter = 0;
                s.phase = Phase::FTanh;
                let req = Req { op: PrimOp::Tanh, a: s.theta, b: 0 };
                (s, Action::Compute(req))
            },
            Phase::FTanh => {
                s.th = resp;
                s.phase = Phase::FScale;
                let req = Req { op: PrimOp::Mul, a: TAU_BITS, b: s.th };
                (s, Action::Compute(req))
            },
            Phase::FScale => {
                s.t = resp;
                s.phase = Phase::FSin;
                let req = Req { op: PrimOp::Sin, a: s.t, b: 0 };
                (s, Action::Compute(req))
            },
            Phase::FSin => {
                s.phase = Phase::FNum;
                let req = Req { op: PrimOp::Sub, a: s.t, b: resp };
                (s, Action::Compute(req))
            },
            Phase::FNum => {
                s.fnum = resp;
                s.phase = Phase::FCos;
                let req = Req { op: PrimOp::Cos, a: s.t, b: 0 };
                (s, Action::Compute(req))
            },
            Phase::FCos => {
                s.phase = Phase::FDen;
                let req = Req { op: PrimOp::Sub, a: ONE_BITS, b: resp };
                (s, Action::Compute(req))
            },
            Phase::FDen => {
                s.phase = Phase::FQuot;
                let req = Req { op: PrimOp::Div, a: s.fnum, b: resp };
                (s, Action::Compute(req))
            },
            Phase::FQuot => {
                s.fval = resp;
                s.phase = Phase::FResid;
                let req = Req { op: PrimOp::Sub, a: s.fval, b: s.k };
                (s, Action::Compute(req))
            },
            Phase::FResid => {
                s.resid = resp;
                if lt_bits(abs_of_bits(resp), s.tol) {
                    if is_finite_bits(s.t) {
                        s.theta_max = s.t;
                        s.phase = Phase::ConvCos;
                        let req = Req { op: PrimOp::Cos, a: s.theta_max, b: 0 };
                        (s, Action::Compute(req))
                    } else {
                        s.phase = Phase::Finished;
                        (s, Action::Done(Err(SolverError::NonFiniteResult)))
                    }
                } else if s.iter == NEWTON_CAP {
                    s.phase = Phase::Finished;
                    (s, Action::Done(Err(SolverError::NonConvergent)))
                } else {
                    s.phase = Phase::DerivU;
                    let req = Req { op: PrimOp::Mul, a: PI_BITS, b: s.th };
                    (s, Action::Compute(req))
                }
            },
            Phase::DerivU => {
                s.du = resp;
                s.phase = Phase::DerivTan;
                let req = Req { op: PrimOp::Tan, a: s.du, b: 0 };
                (s, Action::Compute(req))
            },
            Phase::DerivTan => {
                s.phase = Phase::DerivQuot;
                let req = Req { op: PrimOp::Div, a: s.du, b: resp };
                (s, Action::Compute(req))
            },
            Phase::DerivQuot => {
                s.dq = resp;
                s.phase = Phase::DerivSin;
                let req = Req { op: PrimOp::Sin, a: s.du, b: 0 };
                (s, Action::Compute(req))
            },
            Phase::DerivSin => {
                s.dsin = resp;
                s.phase = Phase::DerivInner;
                let req = Req { op: PrimOp::Sub, a: ONE_BITS, b: s.dq };
                (s, Action::Compute(req))
            },
            Phase::DerivInner => {
                s.phase = Phase::DerivNum;
                let req = Req { op: PrimOp::Mul, a: TAU_BITS, b: resp };
                (s, Action::Compute(req))
            },
            Phase::DerivNum => {
                s.dnum = resp;
                s.phase = Phase::DerivSin2;
                let req = Req { op: PrimOp::Mul, a: s.dsin, b: s.dsin };
                (s, Action::Compute(req))
            },
            Phase::DerivSin2 => {
                s.dsin2 = resp;
                s.phase = Phase::DerivCosh;
                let req = Req { op: PrimOp::Cosh, a: s.theta, b: 0 };
                (s, Action::Compute(req))
            },
            Phase::DerivCosh => {
                s.phase = Phase::DerivCosh2;
                let req = Req { op: PrimOp::Mul, a: resp, b: resp };
                (s, Action::Compute(req))
            },
            Phase::DerivCosh2 => {
                s.phase = Phase::DerivDen;
                let req = Req { op: PrimOp::Mul, a: s.dsin2, b: resp };
                (s, Action::Compute(req))
            },
            Phase::DerivDen => {
                s.phase = Phase::DerivVal;
                let req = Req { op: PrimOp::Div, a: s.dnum, b: resp };
                (s, Action::Compute(req))
            },
            Phase::DerivVal => {
                s.phase = Phase::DerivUpd;
                let req = Req { op: PrimOp::Div, a: s.resid, b: resp };
                (s, Action::Compute(req))
            },
            Phase::DerivUpd => {
                if is_finite_bits(resp) {
                    s.phase = Phase::DerivNewTheta;
                    let req = Req { op: PrimOp::Sub, a: s.theta, b: resp };
                    (s, Action::Compute(req))
                } else {
                    s.phase = Phase::Finished;
                    (s, Action::Done(Err(SolverError::NonConvergent)))
                }
            },
            Phase::DerivNewTheta => {
                s.theta = resp;
                s.iter = s.iter + 1;
                s.phase = Phase::FTanh;
                let req = Req { op: PrimOp::Tanh, a: s.theta, b: 0 };
                (s, Action::Compute(req))
            },
            Phase::ConvCos => {
                s.phase = Phase::ConvOneCos;
                let req = Req { op: PrimOp::Sub, a: ONE_BITS, b: resp };
                (s, Action::Compute(req))
            },
            Phase::ConvOneCos => {
                if is_zero_bits(resp) {
                    s.phase = Phase::Finished;
                    (s, Action::Done(Err(SolverError::DegenerateInput)))
                } else {
                    s.phase = Phase::ConvRho;
                    let req = Req { op: PrimOp::Div, a: s.dy, b: resp };
                    (s, Action::Compute(req))
                }
            },
            Phase::ConvRho => {
                if is_finite_bits(resp) {
                    s.rho = resp;
                    s.phase = Phase::ConvNf;
                    let req = Req { op: PrimOp::FromU32, a: s.n as u64, b: 0 };
                    (s, Action::Compute(req))
                } else {
                    s.phase = Phase::Finished;
                    (s, Action::Done(Err(SolverError::NonFiniteResult)))
                }
            },
            Phase::ConvNf => {
                s.nf = resp;
                s.points.push(Point { x: s.sx, y: s.sy });
                s.i = 1;
                s.phase = Phase::SampConv;
                let req = Req { op: PrimOp::FromU32, a: 1, b: 0 };
                (s, Action::Compute(req))
            },
            Phase::SampConv => {
                s.phase = Phase::SampQuot;
                let req = Req { op: PrimOp::Div, a: resp, b: s.nf };
                (s, Action::Compute(req))
            },
            Phase::SampQuot => {
                s.phase = Phase::SampTheta;
                let req = Req { op: PrimOp::Mul, a: s.theta_max, b: resp };
                (s, Action::Compute(req))
            },
            Phase::SampTheta => {
                s.sth = resp;
                s.phase = Phase::SampSin;
                let req = Req { op: PrimOp::Sin, a: s.sth, b: 0 };
                (s, Action::Compute(req))
            },
            Phase::SampSin => {
                s.phase = Phase::SampDiffX;
                let req = Req { op: PrimOp::Sub, a: s.sth, b: resp };
                (s, Action::Compute(req))
            },
            Phase::SampDiffX => {
                s.phase = Phase::SampScaleX;
                let req = Req { op: PrimOp::Mul, a: s.rho, b: resp };
                (s, Action::Compute(req))
            },
            Phase::SampScaleX => {
                s.phase = Phase::SampAddX;
                let req = Req { op: PrimOp::Add, a: s.sx, b: resp };
                (s, Action::Compute(req))
            },
            Phase::SampAddX => {
                s.px = resp;
                s.phase = Phase::SampCos;
                let req = Req { op: PrimOp::Cos, a: s.sth, b: 0 };
                (s, Action::Compute(req))
            },
            Phase::SampCos => {
                s.phase = Phase::SampDiffY;
                let req = Req { op: PrimOp::Sub, a: ONE_BITS, b: resp };
                (s, Action::Compute(req))
            },
            Phase::SampDiffY => {
                s.phase = Phase::SampScaleY;
                let req = Req { op: PrimOp::Mul, a: s.rho, b: resp };
                (s, Action::Compute(req))
            },
            Phase::SampScaleY => {
                s.phase = Phase::SampAddY;
                let req = Req { op: PrimOp::Add, a: s.sy, b: resp };
                (s, Action::Compute(req))
            },
            Phase::SampAddY => {
                s.points.push(Point { x: s.px, y: resp });
                if s.i == s.n {
                    s.phase = Phase::Finished;
                    let mut pts: Vec<Point> = Vec::new();
                    core::mem::swap(&mut pts, &mut s.points);
                    let params = CurveParameters { theta_max: s.theta_max, rho: s.rho };
                    (s, Action::Done(Ok(SolveResult { params, points: pts })))
                } else {
                    s.i = s.i + 1;
                    s.phase = Phase::SampConv;
                    let req = Req { op: PrimOp::FromU32, a: s.i as u64, b: 0 };
                    (s, Action::Compute(req))
                }
            },
            Phase::Finished => {
                // Unreachable: `in_progress` is required of the caller.
                (s, Action::Done(Err(SolverError::NonConvergent)))
            },
        }
    }
}

} // verus!
