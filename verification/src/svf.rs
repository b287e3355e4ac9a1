//! The filter: what it remembers from sample to sample, and what it decides.
//!
//! For every sample the caller computes the probe, asks for a solve with
//! [`Svf::homotopy_solver`], evaluates the device equations where
//! [`Svf::nonlinear_contribs`] tells it to until the solve has settled, folds
//! the solution into two taps, an output and a next state, and hands those to
//! [`Svf::tick_dk`]. The filter keeps the state vector, the coefficient
//! matrices and the extrapolation origin, runs Newton's iteration cap and the
//! homotopy sweep, and puts out a finite sample whatever happens.

use crate::coefficients::Coefficients;
use crate::continuation::{lemma_sweep_is_bounded, Continuation, Sweep, HALF, UNIT};
use crate::solver::{
    classify, judged, origin_at_rest, origin_of, same_probe, within_tolerance, Evaluation,
    Linearization, Origin, Residual,
};
use crate::word::{finite32, is_finite_single, ZERO32, ZERO64};
use vstd::prelude::*;

verus! {

/// The number of evaluations after which one attempt of Newton's method is
/// given up.
pub const NEWTON_CAP: u8 = 100;

/// How far the solve of the current sample has come.
#[derive(Clone, Copy, Debug)]
pub enum Stage {
    /// No solve is under way.
    Idle,
    /// Newton's method is iterating.
    Solving {
        /// The probe that the sample asks a solution for.
        target: [u64; 3],
        /// The homotopy sweep, once the direct attempt at the target has
        /// failed.
        sweep: Option<Continuation>,
        /// How many evaluations of this attempt did not yet converge.
        evaluations: u8,
    },
    /// The solve has ended.
    Settled {
        /// Whether it ended with the target solved.
        converged: bool,
    },
}

/// What the caller does next in a solve.
#[derive(Clone, Copy, Debug, PartialEq, Eq, Structural)]
pub enum Step {
    /// Take one Newton step from the evaluated candidate and evaluate again
    /// at the same probe.
    Refine,
    /// Start an attempt at the probe that lies `numer` parts in `UNIT` of the
    /// way from the origin's probe to the target, from the solution that the
    /// origin predicts for it.
    Blend {
        /// The fraction of the way, in `UNIT`-ths.
        numer: u64,
    },
    /// Start an attempt at the target itself, from the solution that the
    /// origin predicts for it.
    Target,
    /// The target is solved and the origin holds its solution.
    Solved,
    /// The sweep has stalled: the sample has no solution.
    Stalled,
    /// No solve is under way.
    Idle,
}

/// What the caller has folded out of a solved sample, in binary32 words.
#[derive(Clone, Copy, Debug)]
pub struct Sample {
    /// The two output taps.
    pub vout: [u32; 2],
    /// The state after the sample.
    pub state: [u32; 2],
    /// The output in the active mode.
    pub output: u32,
}

/// Everything that the filter holds.
#[derive(Clone, Copy, Debug)]
pub struct SvfState {
    /// The coefficient matrices.
    pub coefficients: Coefficients,
    /// The state vector, in binary32 words.
    pub s: [u32; 2],
    /// The output taps of the last sample that was put out, in binary32
    /// words.
    pub vout: [u32; 2],
    /// The last output that a solved sample gave, in a binary32 word.
    pub held: u32,
    /// How many samples ended in a fault.
    pub faults: u64,
    /// The extrapolation origin.
    pub origin: Origin,
    /// How far the solve of the current sample has come.
    pub stage: Stage,
}

/// One call into the filter.
#[derive(Clone, Copy, Debug)]
pub enum Event {
    /// The cutoff or the resonance changed.
    Refresh {
        /// The binary64 word of twice the cutoff coefficient.
        two_g: u64,
        /// The binary64 word of the resonance coefficient.
        res: u64,
        /// The binary32 word of minus four times the cutoff coefficient.
        minus_four_g: u32,
    },
    /// A solve is asked for a probe.
    Begin {
        /// The probe to solve.
        target: [u64; 3],
    },
    /// The device equations were evaluated.
    Evaluate {
        /// What the evaluation found.
        eval: Evaluation,
    },
    /// A sample was folded.
    Commit {
        /// What was folded.
        sample: Sample,
    },
    /// The host asks for a reset.
    Reset {
        /// The derivatives that the devices have at rest.
        priming: Linearization,
    },
}

/// What a call into the filter answers.
#[derive(Clone, Copy, Debug)]
pub enum Reply {
    /// Nothing.
    Done,
    /// The next step of the solve.
    Next {
        /// The step.
        step: Step,
    },
    /// An output sample.
    Output {
        /// The sample, in a binary32 word.
        word: u32,
    },
}

impl Stage {
    /// Whether the attempt under way is an attempt at the target itself.
    pub open spec fn at_target(self) -> bool {
        match self {
            Stage::Solving { sweep: None, .. } => true,
            Stage::Solving { sweep: Some(c), .. } => c.trial >= UNIT,
            _ => false,
        }
    }

    /// The iteration count is under the cap and the sweep, if there is one,
    /// is well formed and has not reached the target.
    pub open spec fn wf(self) -> bool {
        match self {
            Stage::Solving { sweep, evaluations, .. } => {
                &&& evaluations < NEWTON_CAP
                &&& sweep matches Some(c) ==> c.wf() && c.best < UNIT
            },
            _ => true,
        }
    }

    /// A bound on the evaluations that the solve can still ask for.
    pub open spec fn effort(self) -> nat {
        match self {
            Stage::Solving { sweep, evaluations, .. } => {
                let rank: nat = match sweep {
                    None => Continuation::initial().remaining() + 1,
                    Some(c) => c.remaining(),
                };
                (rank * NEWTON_CAP + (NEWTON_CAP - evaluations)) as nat
            },
            _ => 0,
        }
    }
}

impl SvfState {
    /// The held output and the state are finite, and the stage is well
    /// formed.
    pub open spec fn wf(self) -> bool {
        &&& finite32(self.held)
        &&& finite32(self.s[0])
        &&& finite32(self.s[1])
        &&& self.stage.wf()
    }

    /// A filter that has processed nothing: state, taps and held output at
    /// nought, the origin at rest.
    pub open spec fn fresh(coefficients: Coefficients, priming: Linearization) -> SvfState {
        SvfState {
            coefficients,
            s: [ZERO32, ZERO32],
            vout: [ZERO32, ZERO32],
            held: ZERO32,
            faults: 0,
            origin: origin_at_rest(priming),
            stage: Stage::Idle,
        }
    }

    /// This filter after a reset: as one that has processed nothing, with
    /// the matrices and the count of faults that it has.
    pub open spec fn reset(self, priming: Linearization) -> SvfState {
        SvfState { faults: self.faults, ..SvfState::fresh(self.coefficients, priming) }
    }

    /// This filter with its matrices refreshed.
    pub open spec fn refreshed(self, two_g: u64, res: u64, minus_four_g: u32) -> SvfState {
        SvfState { coefficients: self.coefficients.refreshed(two_g, res, minus_four_g), ..self }
    }

    /// This filter once a solve for `target` is asked.
    pub open spec fn begun(self, target: [u64; 3]) -> SvfState {
        SvfState { stage: Stage::Solving { target, sweep: None, evaluations: 0 }, ..self }
    }

    /// Whether an evaluation is accepted: a solve is under way, the residue
    /// is finite and under the tolerance, and in an attempt at the target the
    /// evaluated probe is the target, word for word.
    pub open spec fn accepts(self, eval: Evaluation) -> bool {
        &&& self.stage matches Stage::Solving { target, .. }
        &&& judged(eval.residue) is Converged
        &&& self.stage.at_target() ==> eval.probe == target
    }

    /// Whether an evaluation asks for one more Newton step: a solve is under
    /// way, the residue is finite but not under the tolerance, and the
    /// attempt has evaluations left.
    pub open spec fn refines(self, eval: Evaluation) -> bool {
        &&& self.stage matches Stage::Solving { evaluations, .. }
        &&& judged(eval.residue) is Open
        &&& evaluations + 1 < NEWTON_CAP
    }

    /// What the caller does after an evaluation.
    pub open spec fn step(self, eval: Evaluation) -> Step {
        match self.stage {
            Stage::Solving { target, sweep, evaluations } => {
                if self.accepts(eval) {
                    if self.stage.at_target() {
                        Step::Solved
                    } else {
                        Step::Target
                    }
                } else if self.refines(eval) {
                    Step::Refine
                } else {
                    match sweep {
                        None => Step::Blend { numer: HALF },
                        Some(c) => if c.stalls() {
                            Step::Stalled
                        } else {
                            Step::Blend { numer: c.midpoint() as u64 }
                        },
                    }
                }
            },
            _ => Step::Idle,
        }
    }

    /// This filter after an evaluation. An accepted evaluation becomes the
    /// origin; nothing else touches the origin. A failed attempt starts the
    /// sweep or moves it on.
    pub open spec fn observed(self, eval: Evaluation) -> SvfState {
        match self.stage {
            Stage::Solving { target, sweep, evaluations } => {
                if self.accepts(eval) {
                    let stage = match sweep {
                        Some(c) if c.trial < UNIT => Stage::Solving {
                            target,
                            sweep: Some(c.after(true)),
                            evaluations: 0,
                        },
                        _ => Stage::Settled { converged: true },
                    };
                    SvfState { origin: origin_of(eval), stage, ..self }
                } else if self.refines(eval) {
                    SvfState {
                        stage: Stage::Solving {
                            target,
                            sweep,
                            evaluations: (evaluations + 1) as u8,
                        },
                        ..self
                    }
                } else {
                    let stage = match sweep {
                        None => Stage::Solving {
                            target,
                            sweep: Some(Continuation::initial()),
                            evaluations: 0,
                        },
                        Some(c) => if c.stalls() {
                            Stage::Settled { converged: false }
                        } else {
                            Stage::Solving { target, sweep: Some(c.after(false)), evaluations: 0 }
                        },
                    };
                    SvfState { stage, ..self }
                }
            },
            _ => self,
        }
    }

    /// Whether a folded sample is put out: the solve has ended with the
    /// target solved, and the output and the next state are finite.
    pub open spec fn publishes(self, sample: Sample) -> bool {
        &&& self.stage matches Stage::Settled { converged: true }
        &&& finite32(sample.output)
        &&& finite32(sample.state[0])
        &&& finite32(sample.state[1])
    }

    /// The output for a folded sample: its own output if it is put out, and
    /// else the last output that was.
    pub open spec fn output(self, sample: Sample) -> u32 {
        if self.publishes(sample) {
            sample.output
        } else {
            self.held
        }
    }

    /// This filter after a folded sample: with the sample's state and taps if
    /// it is put out, and else unchanged but for one more fault.
    pub open spec fn committed(self, sample: Sample) -> SvfState {
        if self.publishes(sample) {
            SvfState {
                s: sample.state,
                vout: sample.vout,
                held: sample.output,
                stage: Stage::Idle,
                ..self
            }
        } else {
            SvfState {
                faults: if self.faults < u64::MAX {
                    (self.faults + 1) as u64
                } else {
                    self.faults
                },
                stage: Stage::Idle,
                ..self
            }
        }
    }

    /// This filter after one call.
    pub open spec fn after(self, event: Event) -> SvfState {
        match event {
            Event::Refresh { two_g, res, minus_four_g } => self.refreshed(two_g, res, minus_four_g),
            Event::Begin { target } => self.begun(target),
            Event::Evaluate { eval } => self.observed(eval),
            Event::Commit { sample } => self.committed(sample),
            Event::Reset { priming } => self.reset(priming),
        }
    }

    /// What one call answers.
    pub open spec fn reply(self, event: Event) -> Reply {
        match event {
            Event::Evaluate { eval } => Reply::Next { step: self.step(eval) },
            Event::Commit { sample } => Reply::Output { word: self.output(sample) },
            _ => Reply::Done,
        }
    }

    /// What a run of calls answers, call by call.
    pub open spec fn run(self, events: Seq<Event>) -> Seq<Reply>
        decreases events.len(),
    {
        if events.len() == 0 {
            Seq::empty()
        } else {
            seq![self.reply(events[0])] + self.after(events[0]).run(
                events.subrange(1, events.len() as int),
            )
        }
    }

    /// Two filters that differ at most in their count of faults.
    pub open spec fn agrees(self, other: SvfState) -> bool {
        SvfState { faults: 0, ..self } == SvfState { faults: 0, ..other }
    }
}

/// The filter. Its memory is read through [`Svf::view`] and changed only by
/// the functions below, which keep the held output and the state finite.
pub struct Svf {
    state: SvfState,
}

impl View for Svf {
    type V = SvfState;

    closed spec fn view(&self) -> SvfState {
        self.state
    }
}

impl Svf {
    #[verifier::type_invariant]
    spec fn inv(self) -> bool {
        self.state.wf()
    }

    /// Builds a filter around the matrices of a circuit and the derivatives
    /// that the devices have at rest.
    pub fn new(coefficients: Coefficients, priming: Linearization) -> (made: Svf)
        ensures
            made@ == SvfState::fresh(coefficients, priming),
            made@.wf(),
    {
        proof {
            lemma_rest_is_finite();
        }
        Svf {
            state: SvfState {
                coefficients,
                s: [ZERO32, ZERO32],
                vout: [ZERO32, ZERO32],
                held: ZERO32,
                faults: 0,
                origin: Origin {
                    p: [ZERO64, ZERO64, ZERO64],
                    z: [ZERO64, ZERO64, ZERO64],
                    jacobian: priming.jacobian,
                    sensitivity: priming.sensitivity,
                },
                stage: Stage::Idle,
            },
        }
    }

    /// Puts the filter back to rest: the state, the taps and the held output
    /// at nought, the origin at the zero probe and the zero solution under
    /// the derivatives given, and no solve under way. The matrices and the
    /// count of faults stay.
    pub fn reset(&mut self, priming: Linearization)
        ensures
            final(self)@ == old(self)@.reset(priming),
            final(self)@.wf(),
    {
        proof {
            lemma_rest_is_finite();
        }
        let next = SvfState {
            coefficients: self.state.coefficients,
            s: [ZERO32, ZERO32],
            vout: [ZERO32, ZERO32],
            held: ZERO32,
            faults: self.state.faults,
            origin: Origin {
                p: [ZERO64, ZERO64, ZERO64],
                z: [ZERO64, ZERO64, ZERO64],
                jacobian: priming.jacobian,
                sensitivity: priming.sensitivity,
            },
            stage: Stage::Idle,
        };
        self.state = next;
    }

    /// Refreshes the entries of the matrices that depend on the cutoff and
    /// the resonance, and nothing else.
    pub fn update_matrices(&mut self, two_g: u64, res: u64, minus_four_g: u32)
        ensures
            final(self)@ == old(self)@.refreshed(two_g, res, minus_four_g),
            final(self)@.wf(),
    {
        proof {
            use_type_invariant(&*self);
        }
        let mut next = self.state;
        next.coefficients.update_matrices(two_g, res, minus_four_g);
        self.state = next;
    }

    /// Asks for the solution of a probe. The first attempt goes at the probe
    /// itself, from the solution that the origin predicts for it.
    pub fn homotopy_solver(&mut self, target: [u64; 3])
        ensures
            final(self)@ == old(self)@.begun(target),
            final(self)@.wf(),
    {
        proof {
            use_type_invariant(&*self);
        }
        let mut next = self.state;
        next.stage = Stage::Solving { target, sweep: None, evaluations: 0 };
        self.state = next;
    }

    /// Takes one evaluation of the device equations and says what follows.
    ///
    /// An evaluation whose residue is finite and under the tolerance is
    /// accepted and becomes the origin; if it was made at the target the
    /// solve ends solved, and else the target itself is tried next. A residue
    /// that is finite but not under the tolerance asks for a Newton step,
    /// until the attempt has used its hundred evaluations. An attempt that
    /// runs out of evaluations, meets a residue that is not finite, or claims
    /// the target with another probe has failed: the origin stays as it is,
    /// and the sweep tries the probe halfway back towards the origin, or
    /// stalls where there is none.
    pub fn nonlinear_contribs(&mut self, eval: &Evaluation) -> (step: Step)
        ensures
            final(self)@ == old(self)@.observed(*eval),
            step == old(self)@.step(*eval),
            final(self)@.wf(),
            step is Solved ==> within_tolerance(eval.residue) && final(self)@.origin == origin_of(
                *eval,
            ),
            final(self)@.origin == old(self)@.origin || (within_tolerance(eval.residue)
                && final(self)@.origin == origin_of(*eval)),
            !(step is Solved || step is Stalled || step is Idle) ==> final(self)@.stage.effort()
                < old(self)@.stage.effort(),
    {
        proof {
            use_type_invariant(&*self);
            lemma_solve_makes_progress(self.state, *eval);
        }
        let mut next = self.state;
        match self.state.stage {
            Stage::Solving { target, sweep, evaluations } => {
                let at_target = match sweep {
                    None => true,
                    Some(c) => c.trial >= UNIT,
                };
                let verdict = classify(&eval.residue);
                let accepted = match verdict {
                    Residual::Converged => !at_target || same_probe(&eval.probe, &target),
                    _ => false,
                };
                let refine = match verdict {
                    Residual::Open => evaluations + 1 < NEWTON_CAP,
                    _ => false,
                };
                if accepted {
                    next.origin = Origin {
                        p: eval.probe,
                        z: eval.z,
                        jacobian: eval.jacobian,
                        sensitivity: eval.sensitivity,
                    };
                    match sweep {
                        Some(c) => {
                            if c.trial < UNIT {
                                let mut moved = c;
                                let _ = moved.advance(true);
                                next.stage = Stage::Solving {
                                    target,
                                    sweep: Some(moved),
                                    evaluations: 0,
                                };
                                self.state = next;
                                Step::Target
                            } else {
                                next.stage = Stage::Settled { converged: true };
                                self.state = next;
                                Step::Solved
                            }
                        },
                        None => {
                            next.stage = Stage::Settled { converged: true };
                            self.state = next;
                            Step::Solved
                        },
                    }
                } else if refine {
                    next.stage = Stage::Solving { target, sweep, evaluations: evaluations + 1 };
                    self.state = next;
                    Step::Refine
                } else {
                    match sweep {
                        None => {
                            let started = Continuation::start();
                            next.stage = Stage::Solving {
                                target,
                                sweep: Some(started),
                                evaluations: 0,
                            };
                            self.state = next;
                            Step::Blend { numer: HALF }
                        },
                        Some(c) => {
                            let mut moved = c;
                            match moved.advance(false) {
                                Sweep::Attempt => {
                                    next.stage = Stage::Solving {
                                        target,
                                        sweep: Some(moved),
                                        evaluations: 0,
                                    };
                                    self.state = next;
                                    Step::Blend { numer: moved.trial }
                                },
                                _ => {
                                    next.stage = Stage::Settled { converged: false };
                                    self.state = next;
                                    Step::Stalled
                                },
                            }
                        },
                    }
                }
            },
            _ => Step::Idle,
        }
    }

    /// Ends a sample and gives its output.
    ///
    /// Where the solve ended with the target solved and the folded output and
    /// state are finite, the filter takes the new state and taps and puts the
    /// folded output out. In every other case the sample is a fault: the
    /// state, the taps and the origin stay as they are, the count of faults
    /// goes up by one, and the last output that was put out is put out again.
    /// What is put out is finite in either case.
    pub fn tick_dk(&mut self, sample: &Sample) -> (out: u32)
        ensures
            final(self)@ == old(self)@.committed(*sample),
            out == old(self)@.output(*sample),
            finite32(out),
            final(self)@.wf(),
            final(self)@.held == out,
            final(self)@.origin == old(self)@.origin,
    {
        proof {
            use_type_invariant(&*self);
        }
        let mut next = self.state;
        let solved = match self.state.stage {
            Stage::Settled { converged } => converged,
            _ => false,
        };
        next.stage = Stage::Idle;
        if solved && is_finite_single(sample.output) && is_finite_single(sample.state[0])
            && is_finite_single(sample.state[1]) {
            next.s = sample.state;
            next.vout = sample.vout;
            next.held = sample.output;
            self.state = next;
            sample.output
        } else {
            if next.faults < u64::MAX {
                next.faults = next.faults + 1;
            }
            self.state = next;
            next.held
        }
    }

    /// The state vector, in binary32 words.
    pub fn state(&self) -> (s: [u32; 2])
        ensures
            s == self@.s,
            finite32(s[0]),
            finite32(s[1]),
    {
        proof {
            use_type_invariant(self);
        }
        self.state.s
    }

    /// The output taps of the last sample that was put out.
    pub fn vout(&self) -> (taps: [u32; 2])
        ensures
            taps == self@.vout,
    {
        self.state.vout
    }

    /// The extrapolation origin.
    pub fn origin(&self) -> (origin: Origin)
        ensures
            origin == self@.origin,
    {
        self.state.origin
    }

    /// The coefficient matrices.
    pub fn coefficients(&self) -> (coefficients: Coefficients)
        ensures
            coefficients == self@.coefficients,
    {
        self.state.coefficients
    }

    /// How many samples ended in a fault.
    pub fn faults(&self) -> (count: u64)
        ensures
            count == self@.faults,
    {
        self.state.faults
    }

    /// How far the solve of the current sample has come.
    pub fn stage(&self) -> (stage: Stage)
        ensures
            stage == self@.stage,
    {
        self.state.stage
    }
}

/// The word of nought is finite.
proof fn lemma_rest_is_finite()
    ensures
        finite32(ZERO32),
{
    assert(0u32 & 0x7fff_ffff == 0u32) by (bit_vector);
}

/// A solve is bounded: every evaluation that does not settle the solve lowers
/// the bound on the evaluations that it can still ask for, and the stage stays
/// well formed.
pub proof fn lemma_solve_makes_progress(state: SvfState, eval: Evaluation)
    requires
        state.wf(),
    ensures
        state.observed(eval).wf(),
        state.stage is Solving && state.observed(eval).stage is Solving ==> state.observed(
            eval,
        ).stage.effort() < state.stage.effort(),
        state.step(eval) is Solved <==> state.stage is Solving && state.observed(eval).stage
            == (Stage::Settled { converged: true }),
        state.step(eval) is Stalled <==> state.stage is Solving && state.observed(eval).stage
            == (Stage::Settled { converged: false }),
        state.step(eval) is Idle <==> !(state.stage is Solving),
        state.step(eval) matches Step::Blend { numer } ==> 0 < numer < UNIT,
{
    match state.stage {
        Stage::Solving { target, sweep, evaluations } => {
            let cap: nat = NEWTON_CAP as nat;
            match sweep {
                None => {
                    lemma_sweep_is_bounded(Continuation::initial(), false);
                    let start: nat = Continuation::initial().remaining();
                    assert(start * cap + cap <= (start + 1) * cap) by (nonlinear_arith);
                },
                Some(c) => {
                    lemma_sweep_is_bounded(c, true);
                    lemma_sweep_is_bounded(c, false);
                    let before: nat = c.remaining();
                    let won: nat = c.after(true).remaining();
                    let lost: nat = c.after(false).remaining();
                    assert(won < before ==> won * cap + cap <= before * cap) by (nonlinear_arith);
                    assert(lost < before ==> lost * cap + cap <= before * cap)
                        by (nonlinear_arith);
                },
            }
        },
        _ => {},
    }
}

/// A solve never claims a solution that it has not seen: it ends solved only
/// on an evaluation of the target itself whose residue is finite and under
/// the tolerance, and then the origin holds that probe and that solution.
pub proof fn lemma_solved_is_consistent(state: SvfState, eval: Evaluation)
    requires
        state.wf(),
        state.step(eval) is Solved,
    ensures
        state.stage matches Stage::Solving { target, .. } && eval.probe == target,
        within_tolerance(eval.residue),
        state.observed(eval).origin.p == eval.probe,
        state.observed(eval).origin.z == eval.z,
        state.observed(eval).stage == (Stage::Settled { converged: true }),
{
}

/// An evaluation that is not accepted never corrupts the origin, and an
/// evaluation changes nothing but the origin and the stage.
pub proof fn lemma_origin_survives_failure(state: SvfState, eval: Evaluation)
    ensures
        !state.accepts(eval) ==> state.observed(eval).origin == state.origin,
        state.accepts(eval) ==> state.observed(eval).origin == origin_of(eval) && within_tolerance(
            eval.residue,
        ),
        state.observed(eval).s == state.s,
        state.observed(eval).vout == state.vout,
        state.observed(eval).held == state.held,
        state.observed(eval).faults == state.faults,
        state.observed(eval).coefficients == state.coefficients,
{
}

/// A sample that is not put out is a fault: it leaves the state, the taps and
/// the held output alone and counts one more fault, and the held output goes
/// out. A sample is put out only where the solve ended with the target solved.
pub proof fn lemma_fault_holds_output(state: SvfState, sample: Sample)
    requires
        state.wf(),
    ensures
        finite32(state.output(sample)),
        state.committed(sample).wf(),
        state.committed(sample).origin == state.origin,
        state.committed(sample).stage is Idle,
        state.publishes(sample) ==> state.stage == (Stage::Settled { converged: true }),
        !state.publishes(sample) ==> {
            &&& state.output(sample) == state.held
            &&& state.committed(sample).s == state.s
            &&& state.committed(sample).vout == state.vout
            &&& state.committed(sample).held == state.held
            &&& state.faults < u64::MAX ==> state.committed(sample).faults == state.faults + 1
        },
        state.publishes(sample) ==> {
            &&& state.output(sample) == sample.output
            &&& state.committed(sample).s == sample.state
            &&& state.committed(sample).vout == sample.vout
            &&& state.committed(sample).faults == state.faults
        },
{
}

/// Every part of the memory has its own calls: the state, the taps and the
/// held output change only where a sample ends and on a reset, the matrices
/// only on a refresh, the origin only on an evaluation and on a reset, and
/// the count of faults only where a sample ends.
pub proof fn lemma_calls_touch_their_own(state: SvfState, event: Event)
    ensures
        !(event is Commit || event is Reset) ==> {
            &&& state.after(event).s == state.s
            &&& state.after(event).vout == state.vout
            &&& state.after(event).held == state.held
        },
        !(event is Refresh) ==> state.after(event).coefficients == state.coefficients,
        !(event is Evaluate || event is Reset) ==> state.after(event).origin == state.origin,
        !(event is Commit) ==> state.after(event).faults == state.faults,
        event is Reset ==> {
            &&& state.after(event).s == [ZERO32, ZERO32]
            &&& state.after(event).held == ZERO32
            &&& state.after(event).stage is Idle
        },
{
}

/// Every call keeps a well-formed filter well formed.
pub proof fn lemma_calls_keep_wf(state: SvfState, event: Event)
    requires
        state.wf(),
    ensures
        state.after(event).wf(),
{
    lemma_rest_is_finite();
    match event {
        Event::Evaluate { eval } => {
            lemma_solve_makes_progress(state, eval);
        },
        _ => {},
    }
}

/// Whatever is called in whatever order, every output sample is finite.
pub proof fn lemma_outputs_are_finite(state: SvfState, events: Seq<Event>, i: int)
    requires
        state.wf(),
        0 <= i < events.len(),
    ensures
        state.run(events).len() == events.len(),
        state.run(events)[i] matches Reply::Output { word } ==> finite32(word),
    decreases events.len(),
{
    let rest = events.subrange(1, events.len() as int);
    lemma_run_length(state.after(events[0]), rest);
    lemma_calls_keep_wf(state, events[0]);
    if i > 0 {
        lemma_outputs_are_finite(state.after(events[0]), rest, i - 1);
    }
}

/// A run answers every call.
pub proof fn lemma_run_length(state: SvfState, events: Seq<Event>)
    ensures
        state.run(events).len() == events.len(),
    decreases events.len(),
{
    if events.len() > 0 {
        lemma_run_length(state.after(events[0]), events.subrange(1, events.len() as int));
    }
}

/// The count of faults is a record only: two filters that differ in nothing
/// else answer every run of calls alike.
pub proof fn lemma_faults_are_a_record(a: SvfState, b: SvfState, events: Seq<Event>)
    requires
        a.agrees(b),
    ensures
        a.run(events) == b.run(events),
    decreases events.len(),
{
    if events.len() > 0 {
        let event = events[0];
        assert(a.after(event).agrees(b.after(event)));
        assert(a.reply(event) == b.reply(event));
        lemma_faults_are_a_record(
            a.after(event),
            b.after(event),
            events.subrange(1, events.len() as int),
        );
    }
}

/// After a reset a filter answers every run of calls as a filter does that
/// was built anew with the same matrices and the same derivatives at rest.
pub proof fn lemma_reset_reproduces_fresh(
    state: SvfState,
    priming: Linearization,
    events: Seq<Event>,
)
    ensures
        state.reset(priming).run(events) == SvfState::fresh(state.coefficients, priming).run(
            events,
        ),
{
    lemma_faults_are_a_record(
        state.reset(priming),
        SvfState::fresh(state.coefficients, priming),
        events,
    );
}

} // verus!
