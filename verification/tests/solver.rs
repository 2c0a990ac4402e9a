//! End-to-end tests: the solver machine driven by a real binary64 engine.

use brachistochrone::machine::Action;
use brachistochrone::machine::PrimOp;
use brachistochrone::machine::Req;
use brachistochrone::machine::SolveResult;
use brachistochrone::machine::Solver;
use brachistochrone::machine::SolverError;
use brachistochrone::machine::DEFAULT_SAMPLE_COUNT;
use brachistochrone::machine::DEFAULT_TOLERANCE_BITS;
use brachistochrone::machine::ONE_BITS;
use brachistochrone::machine::PI_BITS;
use brachistochrone::machine::TAU_BITS;
use brachistochrone::machine::THREE_BITS;

const TAU: f64 = 6.283185307179586;

/// The driver side of the protocol: one primitive IEEE 754 operation.
fn apply(req: Req) -> u64 {
    let a = f64::from_bits(req.a);
    let b = f64::from_bits(req.b);
    match req.op {
        PrimOp::Add => (a + b).to_bits(),
        PrimOp::Sub => (a - b).to_bits(),
        PrimOp::Mul => (a * b).to_bits(),
        PrimOp::Div => (a / b).to_bits(),
        PrimOp::Sin => a.sin().to_bits(),
        PrimOp::Cos => a.cos().to_bits(),
        PrimOp::Tan => a.tan().to_bits(),
        PrimOp::Atan => a.atan().to_bits(),
        PrimOp::Tanh => a.tanh().to_bits(),
        PrimOp::Cosh => a.cosh().to_bits(),
        PrimOp::FromU32 => ((req.a as u32) as f64).to_bits(),
    }
}

fn solve_n(
    x0: f64,
    y0: f64,
    x1: f64,
    y1: f64,
    n: u32,
    tol: f64,
) -> Result<SolveResult, SolverError> {
    let (mut m, mut act) = Solver::start(
        x0.to_bits(),
        y0.to_bits(),
        x1.to_bits(),
        y1.to_bits(),
        n,
        tol.to_bits(),
    );
    loop {
        match act {
            Action::Done(r) => return r,
            Action::Compute(req) => {
                let resp = apply(req);
                let (m2, a2) = m.step(resp);
                m = m2;
                act = a2;
            }
        }
    }
}

fn solve(x0: f64, y0: f64, x1: f64, y1: f64) -> Result<SolveResult, SolverError> {
    solve_n(x0, y0, x1, y1, DEFAULT_SAMPLE_COUNT, 1e-6)
}

/// Drives the machine with a fixed response script instead of an engine.
fn drive_script(x0: f64, y0: f64, x1: f64, y1: f64, responses: &[u64]) -> Result<SolveResult, SolverError> {
    let (mut m, mut act) = Solver::start(
        x0.to_bits(),
        y0.to_bits(),
        x1.to_bits(),
        y1.to_bits(),
        DEFAULT_SAMPLE_COUNT,
        DEFAULT_TOLERANCE_BITS,
    );
    let mut idx: usize = 0;
    loop {
        match act {
            Action::Done(r) => return r,
            Action::Compute(_) => {
                let resp = responses[idx];
                idx += 1;
                let (m2, a2) = m.step(resp);
                m = m2;
                act = a2;
            }
        }
    }
}

/// The tanh-compressed target function f, as the solver defines it.
fn f_transformed(theta: f64) -> f64 {
    let t = TAU * theta.tanh();
    (t - t.sin()) / (1.0 - t.cos())
}

#[test]
fn constants_encode_their_values() {
    assert_eq!(f64::from_bits(ONE_BITS), 1.0);
    assert_eq!(f64::from_bits(THREE_BITS), 3.0);
    assert_eq!(PI_BITS, std::f64::consts::PI.to_bits());
    assert_eq!(TAU_BITS, (2.0 * std::f64::consts::PI).to_bits());
    assert_eq!(DEFAULT_TOLERANCE_BITS, 1e-6f64.to_bits());
    assert_eq!(DEFAULT_SAMPLE_COUNT, 256);
}

#[test]
fn round_trip_recovers_theta_max() {
    // The initial guess atan(k / 3) keeps Newton-Raphson inside its
    // convergence basin up to roughly |theta| = 2.4 (k around 1.2e3);
    // farther out the iterate steps onto a pole of f and the solve reports
    // NonConvergent.
    let thetas = [-2.4, -2.0, -1.2, -0.6, 0.6, 1.2, 2.0, 2.4];
    for &theta in thetas.iter() {
        let k = f_transformed(theta);
        let res = solve(0.0, 0.0, k, 1.0).expect("round trip solve failed");
        let recovered = f64::from_bits(res.params.theta_max);
        let expected = TAU * theta.tanh();
        assert!(
            (recovered - expected).abs() < 1e-4,
            "theta {}: recovered {} expected {}",
            theta,
            recovered,
            expected
        );
    }
}

#[test]
fn endpoint_exact_start() {
    let res = solve(0.3, 0.1, 1.7, 2.5).expect("solve failed");
    assert_eq!(res.points[0].x, 0.3f64.to_bits());
    assert_eq!(res.points[0].y, 0.1f64.to_bits());
}

#[test]
fn endpoint_exact_start_swapped_inputs() {
    // The lower-y endpoint is the start whichever way the inputs arrive.
    let res = solve(1.7, 2.5, 0.3, 0.1).expect("solve failed");
    assert_eq!(res.points[0].x, 0.3f64.to_bits());
    assert_eq!(res.points[0].y, 0.1f64.to_bits());
}

#[test]
fn sequence_length_matches_sample_count() {
    for &n in [1u32, 2, 7, 100, 256].iter() {
        let res = solve_n(0.0, 0.0, 1.0, 1.0, n, 1e-6).expect("solve failed");
        assert_eq!(res.points.len(), (n + 1) as usize);
    }
}

#[test]
fn terminal_point_approximates_far_endpoint() {
    let cases = [
        (0.0, 0.0, 1.0, 1.0),
        (0.0, 0.0, 3.0, 1.0),
        (2.0, 5.0, -1.0, 1.0),
        (0.0, 0.0, -1.0, 1.0),
        (10.0, -4.0, 11.5, 2.25),
    ];
    for &(x0, y0, x1, y1) in cases.iter() {
        let res = solve(x0, y0, x1, y1).expect("solve failed");
        let last = res.points[res.points.len() - 1];
        // The far endpoint is the one that is not the normalized start.
        let (fx, fy) = if y0 < y1 { (x1, y1) } else { (x0, y0) };
        let lx = f64::from_bits(last.x);
        let ly = f64::from_bits(last.y);
        assert!(
            (lx - fx).abs() < 1e-3 && (ly - fy).abs() < 1e-3,
            "case {:?}: last point ({}, {})",
            (x0, y0, x1, y1),
            lx,
            ly
        );
    }
}

#[test]
fn equal_height_rejected() {
    assert_eq!(solve(0.0, 5.0, 3.0, 5.0), Err(SolverError::DegenerateInput));
}

#[test]
fn equal_height_rejected_for_signed_zeros() {
    // -0.0 and +0.0 are numerically equal heights.
    assert_eq!(solve(0.0, -0.0, 3.0, 0.0), Err(SolverError::DegenerateInput));
}

#[test]
fn monotonic_fall_within_half_turn() {
    // For theta_max in (0, pi] the sampled depth never decreases.
    let cases = [(0.0, 0.0, 1.0, 1.0), (0.0, 0.0, 0.5, 1.0), (-2.0, 1.0, 0.1, 4.0)];
    for &(x0, y0, x1, y1) in cases.iter() {
        let res = solve(x0, y0, x1, y1).expect("solve failed");
        let theta_max = f64::from_bits(res.params.theta_max);
        assert!(theta_max > 0.0 && theta_max <= std::f64::consts::PI);
        let mut prev = f64::from_bits(res.points[0].y);
        for p in res.points.iter() {
            let y = f64::from_bits(p.y);
            assert!(y >= prev, "depth fell from {} to {}", prev, y);
            prev = y;
        }
    }
}

#[test]
fn concrete_unit_scenario() {
    // solve((0,0), (1,1)): k = 1.
    let res = solve(0.0, 0.0, 1.0, 1.0).expect("solve failed");
    let theta_max = f64::from_bits(res.params.theta_max);
    let rho = f64::from_bits(res.params.rho);
    assert!(theta_max.is_finite());
    // The f-transformed value of the recovered angle matches k within 1e-6.
    let g = (theta_max - theta_max.sin()) / (1.0 - theta_max.cos());
    assert!((g - 1.0).abs() < 1e-6, "g = {}", g);
    // rho is consistent with the closed form rho = delta_y / (1 - cos(theta_max)).
    assert_eq!(rho.to_bits(), (1.0 / (1.0 - theta_max.cos())).to_bits());
    // First point exactly the origin; last within 1e-3 of (1, 1).
    assert_eq!(res.points[0].x, 0.0f64.to_bits());
    assert_eq!(res.points[0].y, 0.0f64.to_bits());
    let last = res.points[res.points.len() - 1];
    let lx = f64::from_bits(last.x);
    let ly = f64::from_bits(last.y);
    assert!((lx - 1.0).abs() < 1e-3 && (ly - 1.0).abs() < 1e-3);
}

#[test]
fn symmetric_inputs_same_result() {
    // Normalization discards the input order, so both orders give the same
    // rho, the same theta_max, and the same point sequence.
    let a = solve(0.5, -1.0, 2.5, 3.0).expect("solve failed");
    let b = solve(2.5, 3.0, 0.5, -1.0).expect("solve failed");
    assert_eq!(a, b);
}

#[test]
fn zero_tolerance_never_converges() {
    // No residual is strictly below zero, so the cap is exhausted.
    assert_eq!(
        solve_n(0.0, 0.0, 1.0, 1.0, 16, 0.0),
        Err(SolverError::NonConvergent)
    );
}

#[test]
fn update_overflow_reports_nonconvergent() {
    let one = 1.0f64.to_bits();
    let inf = f64::INFINITY.to_bits();
    // Offsets and k; guess; one full f evaluation with a large residual;
    // the f' chain; then a non-finite Newton update.
    let mut script = vec![one; 13];
    script.extend(vec![one; 11]);
    script.push(inf);
    assert_eq!(
        drive_script(0.0, 0.0, 1.0, 1.0, &script),
        Err(SolverError::NonConvergent)
    );
}

#[test]
fn nan_angle_reports_nonfinite() {
    let one = 1.0f64.to_bits();
    let nan = f64::NAN.to_bits();
    let zero = 0.0f64.to_bits();
    // The compressed angle t comes back NaN; the residual then reports
    // convergence, and the non-finite terminal angle is rejected.
    let script = vec![one, one, one, one, one, one, nan, one, one, one, one, one, zero];
    assert_eq!(
        drive_script(0.0, 0.0, 1.0, 1.0, &script),
        Err(SolverError::NonFiniteResult)
    );
}

#[test]
fn infinite_rho_reports_nonfinite() {
    let one = 1.0f64.to_bits();
    let zero = 0.0f64.to_bits();
    let inf = f64::INFINITY.to_bits();
    // Converge at once, then let the curve scale overflow.
    let script = vec![one, one, one, one, one, one, one, one, one, one, one, one, zero, one, one, inf];
    assert_eq!(
        drive_script(0.0, 0.0, 1.0, 1.0, &script),
        Err(SolverError::NonFiniteResult)
    );
}

#[test]
fn degenerate_scale_reports_degenerate() {
    let one = 1.0f64.to_bits();
    let zero = 0.0f64.to_bits();
    // Converge at once, then 1 - cos(theta_max) comes back exactly zero.
    let script = vec![one, one, one, one, one, one, one, one, one, one, one, one, zero, one, zero];
    assert_eq!(
        drive_script(0.0, 0.0, 1.0, 1.0, &script),
        Err(SolverError::DegenerateInput)
    );
}

#[test]
fn first_request_is_horizontal_offset() {
    // The machine's first request subtracts the start x from the end x.
    let (_, act) = Solver::start(
        0.25f64.to_bits(),
        1.0f64.to_bits(),
        4.5f64.to_bits(),
        3.0f64.to_bits(),
        DEFAULT_SAMPLE_COUNT,
        DEFAULT_TOLERANCE_BITS,
    );
    match act {
        Action::Compute(req) => {
            assert_eq!(req.op, PrimOp::Sub);
            assert_eq!(req.a, 4.5f64.to_bits());
            assert_eq!(req.b, 0.25f64.to_bits());
        }
        Action::Done(r) => panic!("unexpected outcome {:?}", r),
    }
}
