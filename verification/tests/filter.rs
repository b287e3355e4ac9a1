//! The filter driven end to end: the arithmetic of the circuit is done here,
//! in floating point, and every decision is left to the library.

use svf_dk::coefficients::Coefficients;
use svf_dk::continuation::UNIT;
use svf_dk::mode::{SvfMode, Tap};
use svf_dk::solver::{pivot_row, place_partials, Evaluation, Linearization, Origin};
use svf_dk::svf::{Sample, Stage, Step, Svf};

const OPAMP_GAIN: f64 = 1000.0;
const OPAMP_SWING: f64 = 10.0;
const THERMAL_VOLTAGE: f64 = 25e-3;
const IDEALITY: f64 = 1.48;
const DIODE_IS: f32 = 1e-12;
const TOL: f64 = 1e-5;

fn bits3(x: [f64; 3]) -> [u64; 3] {
    [x[0].to_bits(), x[1].to_bits(), x[2].to_bits()]
}

fn floats3(x: [u64; 3]) -> [f64; 3] {
    [f64::from_bits(x[0]), f64::from_bits(x[1]), f64::from_bits(x[2])]
}

fn bits33(x: [[f64; 3]; 3]) -> [[u64; 3]; 3] {
    [bits3(x[0]), bits3(x[1]), bits3(x[2])]
}

fn floats33(x: [[u64; 3]; 3]) -> [[f64; 3]; 3] {
    [floats3(x[0]), floats3(x[1]), floats3(x[2])]
}

fn single(x: u32) -> f32 {
    f32::from_bits(x)
}

fn eval_opamp(v_in: f64, v_out: f64) -> (f64, [f64; 2]) {
    let x = v_in * OPAMP_GAIN / OPAMP_SWING;
    let c = x.cosh();
    (x.tanh() * OPAMP_SWING - v_out, [OPAMP_GAIN / (c * c), -1.0])
}

fn eval_diode(v: f64, i: f64, i_s: f64, eta: f64) -> (f64, [f64; 2]) {
    let v_t = THERMAL_VOLTAGE * eta;
    let up = (v / v_t).exp();
    let down = (-v / v_t).exp();
    (i_s * (up - down) - i, [i_s / v_t * (up + down), -1.0])
}

fn solve_linear(j: [[f64; 3]; 3], rhs: [f64; 3]) -> [f64; 3] {
    let mut a = [[0.0; 4]; 3];
    for r in 0..3 {
        for c in 0..3 {
            a[r][c] = j[r][c];
        }
        a[r][3] = rhs[r];
    }
    for c in 0..3 {
        let column = [a[0][c].to_bits(), a[1][c].to_bits(), a[2][c].to_bits()];
        a.swap(c, pivot_row(&column, c));
        for r in c + 1..3 {
            let m = a[r][c] / a[c][c];
            for k in c..4 {
                a[r][k] -= m * a[c][k];
            }
        }
    }
    let mut x = [0.0; 3];
    for r in (0..3).rev() {
        let mut sum = a[r][3];
        for k in r + 1..3 {
            sum -= a[r][k] * x[k];
        }
        x[r] = sum / a[r][r];
    }
    x
}

fn evaluate(coefficients: &Coefficients, p: [f64; 3], z: [f64; 3], i_s: f64) -> Evaluation {
    let mut q = [0.0; 6];
    for i in 0..6 {
        for j in 0..3 {
            q[i] += f64::from_bits(coefficients.pexps[i][j]) * p[j];
        }
        let mut dot = 0.0;
        for j in 0..3 {
            dot += z[j] * f64::from_bits(coefficients.fq[i][j]);
        }
        q[i] += dot;
    }
    let (res1, jq1) = eval_opamp(q[0], q[1]);
    let (res2, jq2) = eval_opamp(q[2], q[3]);
    let (res3, jq3) = eval_diode(q[4], q[5], i_s, IDEALITY);
    let jq = place_partials(&[
        [jq1[0].to_bits(), jq1[1].to_bits()],
        [jq2[0].to_bits(), jq2[1].to_bits()],
        [jq3[0].to_bits(), jq3[1].to_bits()],
    ]);
    let mut jacobian = [[0.0; 3]; 3];
    let mut sensitivity = [[0.0; 3]; 3];
    for i in 0..3 {
        for j in 0..3 {
            for k in 0..6 {
                jacobian[i][j] += f64::from_bits(jq[i][k]) * f64::from_bits(coefficients.fq[k][j]);
                sensitivity[i][j] +=
                    f64::from_bits(jq[i][k]) * f64::from_bits(coefficients.pexps[k][j]);
            }
        }
    }
    Evaluation {
        probe: bits3(p),
        z: bits3(z),
        residue: bits3([res1, res2, res3]),
        jacobian: bits33(jacobian),
        sensitivity: bits33(sensitivity),
    }
}

fn predict(origin: &Origin, p: [f64; 3]) -> [f64; 3] {
    let last_p = floats3(origin.p);
    let last_z = floats3(origin.z);
    let jp = floats33(origin.sensitivity);
    let mut rhs = [0.0; 3];
    for i in 0..3 {
        for j in 0..3 {
            rhs[i] += jp[i][j] * (p[j] - last_p[j]);
        }
    }
    let step = solve_linear(floats33(origin.jacobian), rhs);
    [last_z[0] - step[0], last_z[1] - step[1], last_z[2] - step[2]]
}

fn blend(origin: &Origin, p: [f64; 3], numer: u64) -> [f64; 3] {
    let a = numer as f64 / UNIT as f64;
    let last_p = floats3(origin.p);
    let mut pa = [0.0; 3];
    for i in 0..3 {
        pa[i] = last_p[i] * (1.0 - a) + a * p[i];
    }
    pa
}

struct Params {
    sample_rate: f32,
    g: f32,
    zeta: f32,
    drive: f32,
    diode_is: f32,
    mode: SvfMode,
}

impl Params {
    fn new() -> Params {
        Params {
            sample_rate: 44100.0,
            g: (std::f32::consts::PI * 1000.0 / 44100.0).tan(),
            zeta: 0.1,
            drive: 1.0,
            diode_is: DIODE_IS,
            mode: SvfMode::LP,
        }
    }

    fn update_g(&mut self, cutoff: f32) {
        self.g = (std::f32::consts::PI * cutoff / self.sample_rate).tan();
    }
}

struct Filter {
    params: Params,
    core: Svf,
    evaluations: usize,
    sweeps: usize,
    last_residue: [f64; 3],
}

fn prime(coefficients: &Coefficients, i_s: f64) -> Linearization {
    let at_rest = evaluate(coefficients, [0.0; 3], [0.0; 3], i_s);
    Linearization { jacobian: at_rest.jacobian, sensitivity: at_rest.sensitivity }
}

impl Filter {
    fn new(params: Params) -> Filter {
        let g = (std::f32::consts::PI * 1000.0 / params.sample_rate).tan();
        let coefficients =
            Coefficients::default_point((2.0 * g as f64).to_bits(), (-4.0 * g).to_bits());
        let priming = prime(&coefficients, params.diode_is as f64);
        Filter {
            params,
            core: Svf::new(coefficients, priming),
            evaluations: 0,
            sweeps: 0,
            last_residue: [0.0; 3],
        }
    }

    fn reset(&mut self) {
        let priming = prime(&self.core.coefficients(), self.params.diode_is as f64);
        self.core.reset(priming);
    }

    fn update_matrices(&mut self) {
        let g = self.params.g;
        let res = self.params.zeta;
        self.core.update_matrices(
            (2.0 * g as f64).to_bits(),
            (res as f64).to_bits(),
            (-4.0 * g).to_bits(),
        );
    }

    fn homotopy_solver(&mut self, p: [f64; 3]) -> bool {
        let coefficients = self.core.coefficients();
        let i_s = self.params.diode_is as f64;
        self.core.homotopy_solver(bits3(p));
        let mut pa = p;
        let mut z = predict(&self.core.origin(), pa);
        loop {
            let eval = evaluate(&coefficients, pa, z, i_s);
            self.evaluations += 1;
            self.last_residue = floats3(eval.residue);
            match self.core.nonlinear_contribs(&eval) {
                Step::Refine => {
                    let step = solve_linear(floats33(eval.jacobian), floats3(eval.residue));
                    for i in 0..3 {
                        z[i] -= step[i];
                    }
                }
                Step::Blend { numer } => {
                    if numer == UNIT / 2 {
                        self.sweeps += 1;
                    }
                    pa = blend(&self.core.origin(), p, numer);
                    z = predict(&self.core.origin(), pa);
                }
                Step::Target => {
                    pa = p;
                    z = predict(&self.core.origin(), pa);
                }
                Step::Solved => return true,
                Step::Stalled | Step::Idle => return false,
            }
        }
    }

    fn get_output(&self, input: f32, k: f32, vout: [f32; 2]) -> f32 {
        let mix = self.params.mode.get_output();
        let mut terms = Vec::new();
        if mix.input {
            terms.push(input);
        }
        match mix.tap1 {
            Tap::Absent => {}
            Tap::Direct => terms.push(vout[1]),
            Tap::Scaled => terms.push(k * vout[1]),
        }
        if mix.tap0 {
            terms.push(vout[0]);
        }
        let mut out = terms[0];
        for term in &terms[1..] {
            out = out + term;
        }
        out
    }

    fn tick_dk(&mut self, input: f32) -> f32 {
        let input = input * self.params.drive;
        let m = self.core.coefficients();
        let s = self.core.state();
        let s = [single(s[0]), single(s[1])];
        let mut p = [0.0; 3];
        for i in 0..3 {
            p[i] = (single(m.dq[i][0]) * s[0] + single(m.dq[i][1]) * s[1] + single(m.eq[i]) * input)
                as f64;
        }
        self.homotopy_solver(p);
        let z = floats3(self.core.origin().z);
        let mut vout = [0.0f32; 2];
        let mut next = [0.0f32; 2];
        for i in 0..2 {
            vout[i] =
                single(m.dy[i][0]) * s[0] + single(m.dy[i][1]) * s[1] + single(m.ey[i]) * input;
            for j in 0..3 {
                vout[i] += z[j] as f32 * single(m.fy[i][j]);
            }
            next[i] = single(m.a[i][0]) * s[0] + single(m.a[i][1]) * s[1] + single(m.b[i]) * input;
            for j in 0..3 {
                next[i] += z[j] as f32 * single(m.c[i][j]);
            }
        }
        let out = self.get_output(input, self.params.zeta, vout);
        let sample = Sample {
            vout: [vout[0].to_bits(), vout[1].to_bits()],
            state: [next[0].to_bits(), next[1].to_bits()],
            output: out.to_bits(),
        };
        single(self.core.tick_dk(&sample))
    }

    fn vout(&self) -> [f32; 2] {
        let taps = self.core.vout();
        [single(taps[0]), single(taps[1])]
    }
}

fn tuned(cutoff: f32, mode: SvfMode) -> Filter {
    let mut params = Params::new();
    params.sample_rate = 44100.0;
    params.update_g(cutoff);
    params.zeta = 0.1;
    params.mode = mode;
    let mut filt = Filter::new(params);
    filt.update_matrices();
    filt
}

fn assert_close(got: &[f32], want: &[f32]) {
    assert_eq!(got.len(), want.len());
    for i in 0..got.len() {
        assert!(
            (got[i] - want[i]).abs() <= 1e-4,
            "sample {}: got {:?}, want {:?}; all of it: {:?}",
            i,
            got[i],
            want[i],
            got
        );
    }
}

#[test]
fn test_stepresponse() {
    let mut filt = tuned(10000.0, SvfMode::LP);
    let mut out = [0.0f32; 10];
    for i in 0..10 {
        filt.tick_dk(25.0);
        out[i] = filt.vout()[0];
    }
    for x in out {
        assert!(x.is_finite());
    }
    assert_eq!(filt.core.faults(), 0);
    assert_close(
        &out,
        &[-1.9622827, -5.8781495, -9.756032, -10.0, -10.0, -10.0, -10.0, -10.0, -10.0, -10.0],
    );
}

#[test]
fn test_sine() {
    let fs = 44100.0f32;
    let mut filt = tuned(10000.0, SvfMode::LP);
    let mut input = [0.0f32; 10];
    let freq = 50.0f32;
    for i in 0..input.len() {
        let t = i as f32 / fs;
        input[i] = 30.0 * (2.0 * std::f32::consts::PI * freq * t).cos();
    }
    let mut out = [0.0f32; 10];
    for i in 0..input.len() {
        filt.tick_dk(input[i]);
        out[i] = filt.vout()[0];
    }
    for x in out {
        assert!(x.is_finite());
    }
    assert_eq!(filt.core.faults(), 0);
    assert_close(
        &out,
        &[-1.9751749, -5.9182773, -9.82754, -10.0, -10.0, -10.0, -10.0, -10.0, -10.0, -10.0],
    );
}

#[test]
fn notch_step_matches_recorded_trace() {
    let mut filt = tuned(1000.0, SvfMode::Notch);
    let mut out = [0.0f32; 10];
    for i in 0..10 {
        out[i] = filt.tick_dk(25.0);
    }
    assert_eq!(filt.core.faults(), 0);
    assert_close(
        &out,
        &[
            24.887321, 24.884926, 24.88739, 24.885042, 24.88746, 24.88516, 24.887535, 24.88528,
            24.887611, 24.885406,
        ],
    );
}

#[test]
fn notch_sine_matches_recorded_trace() {
    let mut filt = tuned(1000.0, SvfMode::Notch);
    let mut out = [0.0f32; 10];
    for i in 0..10 {
        let t = i as f32 / 44100.0;
        out[i] = filt.tick_dk(30.0 * (2.0 * std::f32::consts::PI * 50.0 * t).cos());
    }
    assert_eq!(filt.core.faults(), 0);
    assert_close(
        &out,
        &[
            29.88637, 29.883621, 29.883389, 29.877626, 29.874323, 29.865545, 29.85917, 29.847382,
            29.837938, 29.823137,
        ],
    );
}

#[test]
fn rest_is_a_fixed_point_in_every_mode() {
    for mode in [SvfMode::LP, SvfMode::HP, SvfMode::BP1, SvfMode::Notch, SvfMode::BP2] {
        let mut filt = tuned(1000.0, mode);
        for _ in 0..5 {
            let out = filt.tick_dk(0.0);
            assert_eq!(out.to_bits(), 0.0f32.to_bits());
            assert_eq!(filt.vout(), [0.0, 0.0]);
        }
        assert_eq!(filt.core.faults(), 0);
        assert_eq!(filt.evaluations, 5);
    }
}

#[test]
fn reset_reproduces_a_fresh_filter_bit_for_bit() {
    let inputs = [25.0f32, -3.5, 0.25, 30.0, -30.0, 1e-3, 12.0, 0.0, 7.5, -25.0];
    for mode in [SvfMode::LP, SvfMode::HP, SvfMode::BP1, SvfMode::Notch, SvfMode::BP2] {
        let mut fresh = tuned(10000.0, mode);
        let first: Vec<u32> = inputs.iter().map(|x| fresh.tick_dk(*x).to_bits()).collect();

        let mut used = tuned(10000.0, mode);
        for i in 0..40 {
            used.tick_dk(20.0 * ((i as f32) * 0.3).sin());
        }
        used.reset();
        let second: Vec<u32> = inputs.iter().map(|x| used.tick_dk(*x).to_bits()).collect();
        assert_eq!(first, second);
        assert_eq!(fresh.core.state(), used.core.state());
        assert_eq!(fresh.core.origin().z, used.core.origin().z);
    }
}

#[test]
fn output_stays_finite_after_warm_up() {
    for mode in [SvfMode::LP, SvfMode::HP, SvfMode::BP1, SvfMode::Notch, SvfMode::BP2] {
        for cutoff in [20.0f32, 1000.0, 10000.0, 20000.0] {
            for zeta in [0.01f32, 0.1, 1.0, 2.0] {
                let mut params = Params::new();
                params.update_g(cutoff);
                params.zeta = zeta;
                params.drive = 4.0;
                params.mode = mode;
                let mut filt = Filter::new(params);
                filt.update_matrices();
                for i in 0..10 {
                    filt.tick_dk(((i as f32) * 0.7).sin());
                }
                for i in 0..200 {
                    let x = 30.0 * ((i as f32) * 1.3).sin();
                    assert!(filt.tick_dk(x).is_finite());
                }
            }
        }
    }
}

#[test]
fn a_large_jump_is_solved_by_the_sweep() {
    let mut filt = tuned(10000.0, SvfMode::LP);
    let mut swept = false;
    for _ in 0..10 {
        let before = filt.sweeps;
        let faults = filt.core.faults();
        filt.tick_dk(25.0);
        if filt.sweeps > before {
            swept = true;
            assert_eq!(filt.core.faults(), faults);
            // The solution that was folded solves the target itself.
            let origin = filt.core.origin();
            let again = evaluate(
                &filt.core.coefficients(),
                floats3(origin.p),
                floats3(origin.z),
                filt.params.diode_is as f64,
            );
            for r in floats3(again.residue) {
                assert!(r.abs() < TOL);
            }
        }
    }
    assert!(swept);
}

#[test]
fn a_sample_without_solution_holds_the_last_output() {
    let mut filt = tuned(1000.0, SvfMode::Notch);
    let mut last = 0.0f32;
    for _ in 0..5 {
        last = filt.tick_dk(1.0);
    }
    let origin = filt.core.origin();
    let state = filt.core.state();
    let taps = filt.core.vout();

    // A sample without a solution is no reason to stop: the filter reports
    // the fault and goes on with the next sample.
    let out = filt.tick_dk(f32::NAN);
    assert_eq!(out.to_bits(), last.to_bits());
    assert_eq!(filt.core.faults(), 1);
    assert_eq!(filt.core.origin().p, origin.p);
    assert_eq!(filt.core.origin().z, origin.z);
    assert_eq!(filt.core.origin().jacobian, origin.jacobian);
    assert_eq!(filt.core.origin().sensitivity, origin.sensitivity);
    assert_eq!(filt.core.state(), state);
    assert_eq!(filt.core.vout(), taps);
    assert!(matches!(filt.core.stage(), Stage::Idle));

    let out = filt.tick_dk(f32::INFINITY);
    assert_eq!(out.to_bits(), last.to_bits());
    assert_eq!(filt.core.faults(), 2);

    let next = filt.tick_dk(1.0);
    assert!(next.is_finite());
    assert_eq!(filt.core.faults(), 2);
}

#[test]
fn each_mode_adds_its_own_terms() {
    let input = 3.0f32;
    let k = 0.5f32;
    let vout = [7.0f32, 11.0];
    let want = [
        (SvfMode::LP, vout[0]),
        (SvfMode::HP, input + k * vout[1] + vout[0]),
        (SvfMode::BP1, vout[1]),
        (SvfMode::Notch, input + k * vout[1]),
        (SvfMode::BP2, k * vout[1]),
    ];
    for (mode, out) in want {
        let filt = tuned(1000.0, mode);
        assert_eq!(filt.get_output(input, k, vout), out);
    }
    assert_eq!(tuned(1000.0, SvfMode::HP).get_output(input, k, vout), 15.5);
    assert_eq!(tuned(1000.0, SvfMode::Notch).get_output(input, k, vout), 8.5);
    assert_eq!(tuned(1000.0, SvfMode::BP2).get_output(input, k, vout), 5.5);
}

#[test]
fn matrices_follow_the_cutoff_and_the_resonance() {
    let mut filt = tuned(10000.0, SvfMode::LP);
    let g = (std::f32::consts::PI * 10000.0 / 44100.0).tan();
    let m = filt.core.coefficients();
    assert_eq!(f64::from_bits(m.fq[0][0]), 2.0 * g as f64);
    assert_eq!(f64::from_bits(m.fq[2][1]), 2.0 * g as f64);
    assert_eq!(f64::from_bits(m.fq[5][1]), 0.1f32 as f64);
    assert_eq!(single(m.c[0][0]), -4.0 * g);
    assert_eq!(single(m.c[1][1]), -4.0 * g);

    filt.params.zeta = 0.75;
    filt.params.update_g(500.0);
    filt.update_matrices();
    let g = (std::f32::consts::PI * 500.0 / 44100.0).tan();
    let m = filt.core.coefficients();
    assert_eq!(f64::from_bits(m.fq[0][0]), 2.0 * g as f64);
    assert_eq!(f64::from_bits(m.fq[5][1]), 0.75);
    assert_eq!(single(m.c[1][1]), -4.0 * g);
}
