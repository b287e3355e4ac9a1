//! The continuation parameter of the homotopy fallback.
//!
//! When Newton's method fails on a probe, easier probes between the last
//! solved one and the target are tried. How far along that path the next
//! attempt lies is a fraction between nought and one, held here as a count of
//! `UNIT`-ths so that halving is exact integer arithmetic.

use vstd::prelude::*;

verus! {

/// The fraction one: the target itself.
pub const UNIT: u64 = 0x0010_0000_0000_0000;

/// The fraction one half, where a sweep starts.
pub const HALF: u64 = 0x0008_0000_0000_0000;

/// Where a sweep stands: the furthest fraction solved so far and the
/// fraction under trial.
#[derive(Clone, Copy, Debug)]
pub struct Continuation {
    /// The furthest fraction at which an attempt has converged.
    pub best: u64,
    /// The fraction of the attempt under way.
    pub trial: u64,
}

/// What follows an attempt.
#[derive(Clone, Copy, Debug)]
pub enum Sweep {
    /// Try the fraction held in the sweep next.
    Attempt,
    /// The attempt at the target converged.
    Reached,
    /// No fraction lies strictly between the solved one and the failed one.
    Stalled,
}

impl Continuation {
    /// The fraction under trial is at most one, and the solved fraction lies
    /// below it until the target itself is solved.
    pub open spec fn wf(self) -> bool {
        &&& self.trial <= UNIT
        &&& self.best < self.trial || (self.best == UNIT && self.trial == UNIT)
    }

    /// The sweep before its first attempt.
    pub open spec fn initial() -> Continuation {
        Continuation { best: 0, trial: HALF }
    }

    /// The fraction halfway between the solved one and the one under trial,
    /// rounded towards the solved one.
    pub open spec fn midpoint(self) -> int {
        if self.best < self.trial {
            self.best + (self.trial - self.best) / 2
        } else {
            self.best as int
        }
    }

    /// Whether a failure at the fraction under trial leaves nothing to try.
    pub open spec fn stalls(self) -> bool {
        !(self.best < self.midpoint() < self.trial)
    }

    /// The sweep after an attempt at `self.trial` that converged or did not.
    pub open spec fn after(self, converged: bool) -> Continuation {
        if converged {
            Continuation {
                best: self.trial,
                trial: if self.trial >= UNIT {
                    self.trial
                } else {
                    UNIT
                },
            }
        } else if self.stalls() {
            self
        } else {
            Continuation { best: self.best, trial: self.midpoint() as u64 }
        }
    }

    /// What the sweep asks for after an attempt at `self.trial`.
    pub open spec fn verdict(self, converged: bool) -> Sweep {
        if converged {
            if self.trial >= UNIT {
                Sweep::Reached
            } else {
                Sweep::Attempt
            }
        } else if self.stalls() {
            Sweep::Stalled
        } else {
            Sweep::Attempt
        }
    }

    /// A bound on the attempts that a sweep can still make: it falls with
    /// every attempt that does not end the sweep.
    pub open spec fn remaining(self) -> nat {
        if self.wf() {
            ((UNIT - self.best) * (UNIT + 1) + (self.trial - self.best)) as nat
        } else {
            0
        }
    }

    /// Starts a sweep: nothing is solved yet and the first attempt lies
    /// halfway to the target.
    pub fn start() -> (sweep: Continuation)
        ensures
            sweep == Continuation::initial(),
            sweep.wf(),
    {
        Continuation { best: 0, trial: HALF }
    }

    /// Records how the attempt at the fraction under trial ended, and says
    /// what follows. After a success the target itself is tried next; after a
    /// failure the fraction halfway back to the solved one, and if there is
    /// none strictly in between the sweep has stalled.
    pub fn advance(&mut self, converged: bool) -> (next: Sweep)
        ensures
            *final(self) == old(self).after(converged),
            next == old(self).verdict(converged),
            old(self).wf() ==> final(self).wf(),
    {
        if converged {
            self.best = self.trial;
            if self.trial >= UNIT {
                Sweep::Reached
            } else {
                self.trial = UNIT;
                Sweep::Attempt
            }
        } else {
            let middle: u64 = if self.best < self.trial {
                self.best + (self.trial - self.best) / 2
            } else {
                self.best
            };
            if self.best < middle && middle < self.trial {
                self.trial = middle;
                Sweep::Attempt
            } else {
                Sweep::Stalled
            }
        }
    }
}

/// A sweep makes progress: every attempt that does not end it lowers the
/// bound on the attempts that remain, so a sweep ends after finitely many.
pub proof fn lemma_sweep_is_bounded(sweep: Continuation, converged: bool)
    requires
        sweep.wf(),
    ensures
        sweep.after(converged).wf(),
        sweep.verdict(converged) is Attempt ==> sweep.after(converged).remaining()
            < sweep.remaining(),
{
    let next = sweep.after(converged);
    if sweep.verdict(converged) is Attempt {
        if converged {
            assert(next.best == sweep.trial && next.trial == UNIT);
            let gap: int = UNIT - sweep.best;
            let tail: int = UNIT - sweep.trial;
            assert(tail <= gap - 1);
            assert(tail * (UNIT + 1) <= (gap - 1) * (UNIT + 1)) by (nonlinear_arith)
                requires
                    tail <= gap - 1,
            ;
            assert((gap - 1) * (UNIT + 1) == gap * (UNIT + 1) - (UNIT + 1)) by (nonlinear_arith);
        } else {
            assert(next.best == sweep.best && next.trial < sweep.trial);
        }
    }
}

/// A sweep reports the target reached only after a converged attempt at the
/// target, and stalled only after a failed attempt.
pub proof fn lemma_sweep_ends_honestly(sweep: Continuation, converged: bool)
    requires
        sweep.wf(),
    ensures
        sweep.verdict(converged) is Reached <==> converged && sweep.trial == UNIT,
        sweep.verdict(converged) is Stalled ==> !converged && sweep.after(converged) == sweep,
        sweep.verdict(converged) is Attempt && converged ==> sweep.after(converged).trial == UNIT,
        sweep.verdict(converged) is Attempt && !converged ==> sweep.best < sweep.after(
            converged,
        ).trial < sweep.trial,
{
}

} // verus!
