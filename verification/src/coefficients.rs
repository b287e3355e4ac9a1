//! The coefficient matrices of the filter's circuit.
//!
//! Every entry is the word of a number. Most entries are nought, one or minus
//! one and follow from how the circuit is wired; five depend on the cutoff
//! and the resonance and are refreshed when those change. The caller supplies
//! the words of those five, since it alone does the arithmetic.

use crate::word::{MINUS_ONE32, MINUS_ONE64, ONE32, ONE64, TENTH64, ZERO32, ZERO64};
use vstd::prelude::*;

verus! {

/// The matrices that take the state, the input and the nonlinear solution to
/// the probe, the next state and the output taps.
#[derive(Clone, Copy, Debug)]
pub struct Coefficients {
    /// State to probe, in binary32 words.
    pub dq: [[u32; 2]; 3],
    /// Input to probe, in binary32 words.
    pub eq: [u32; 3],
    /// Nonlinear solution to full probe, in binary64 words.
    pub fq: [[u64; 3]; 6],
    /// Probe to full probe, in binary64 words.
    pub pexps: [[u64; 3]; 6],
    /// State to next state, in binary32 words.
    pub a: [[u32; 2]; 2],
    /// Input to next state, in binary32 words.
    pub b: [u32; 2],
    /// Nonlinear solution to next state, in binary32 words.
    pub c: [[u32; 3]; 2],
    /// State to output taps, in binary32 words.
    pub dy: [[u32; 2]; 2],
    /// Input to output taps, in binary32 words.
    pub ey: [u32; 2],
    /// Nonlinear solution to output taps, in binary32 words.
    pub fy: [[u32; 3]; 2],
}

impl Coefficients {
    /// The matrices of the circuit for a cutoff and a resonance, given as the
    /// binary64 words of twice the cutoff coefficient and of the resonance
    /// coefficient and the binary32 word of minus four times the cutoff
    /// coefficient.
    pub open spec fn wired(two_g: u64, res: u64, minus_four_g: u32) -> Coefficients {
        Coefficients {
            dq: [[MINUS_ONE32, ZERO32], [ZERO32, MINUS_ONE32], [ZERO32, ZERO32]],
            eq: [ZERO32, ZERO32, ONE32],
            fq: [
                [two_g, MINUS_ONE64, ZERO64],
                [ZERO64, ONE64, ZERO64],
                [ZERO64, two_g, MINUS_ONE64],
                [ZERO64, ZERO64, ONE64],
                [ZERO64, MINUS_ONE64, ZERO64],
                [ONE64, res, ONE64],
            ],
            pexps: [
                [ONE64, ZERO64, ZERO64],
                [ZERO64, ZERO64, ZERO64],
                [ZERO64, ONE64, ZERO64],
                [ZERO64, ZERO64, ZERO64],
                [ZERO64, ZERO64, ZERO64],
                [ZERO64, ZERO64, ONE64],
            ],
            a: [[ONE32, ZERO32], [ZERO32, ONE32]],
            b: [ZERO32, ZERO32],
            c: [[minus_four_g, ZERO32, ZERO32], [ZERO32, minus_four_g, ZERO32]],
            dy: [[ZERO32, ZERO32], [ZERO32, ZERO32]],
            ey: [ZERO32, ZERO32],
            fy: [[ZERO32, ZERO32, ONE32], [ZERO32, ONE32, ZERO32]],
        }
    }

    /// These matrices with the five entries that depend on the cutoff and the
    /// resonance replaced, and every other entry kept.
    pub open spec fn refreshed(self, two_g: u64, res: u64, minus_four_g: u32) -> Coefficients {
        Coefficients {
            fq: [
                [two_g, self.fq[0][1], self.fq[0][2]],
                self.fq[1],
                [self.fq[2][0], two_g, self.fq[2][2]],
                self.fq[3],
                self.fq[4],
                [self.fq[5][0], res, self.fq[5][2]],
            ],
            c: [
                [minus_four_g, self.c[0][1], self.c[0][2]],
                [self.c[1][0], minus_four_g, self.c[1][2]],
            ],
            ..self
        }
    }

    /// Builds the matrices of the circuit for a cutoff and a resonance.
    pub fn new(two_g: u64, res: u64, minus_four_g: u32) -> (made: Coefficients)
        ensures
            made == Coefficients::wired(two_g, res, minus_four_g),
    {
        Coefficients {
            dq: [[MINUS_ONE32, ZERO32], [ZERO32, MINUS_ONE32], [ZERO32, ZERO32]],
            eq: [ZERO32, ZERO32, ONE32],
            fq: [
                [two_g, MINUS_ONE64, ZERO64],
                [ZERO64, ONE64, ZERO64],
                [ZERO64, two_g, MINUS_ONE64],
                [ZERO64, ZERO64, ONE64],
                [ZERO64, MINUS_ONE64, ZERO64],
                [ONE64, res, ONE64],
            ],
            pexps: [
                [ONE64, ZERO64, ZERO64],
                [ZERO64, ZERO64, ZERO64],
                [ZERO64, ONE64, ZERO64],
                [ZERO64, ZERO64, ZERO64],
                [ZERO64, ZERO64, ZERO64],
                [ZERO64, ZERO64, ONE64],
            ],
            a: [[ONE32, ZERO32], [ZERO32, ONE32]],
            b: [ZERO32, ZERO32],
            c: [[minus_four_g, ZERO32, ZERO32], [ZERO32, minus_four_g, ZERO32]],
            dy: [[ZERO32, ZERO32], [ZERO32, ZERO32]],
            ey: [ZERO32, ZERO32],
            fy: [[ZERO32, ZERO32, ONE32], [ZERO32, ONE32, ZERO32]],
        }
    }

    /// Builds the matrices that a filter starts with: the circuit at the
    /// cutoff given and at a resonance coefficient of one tenth.
    pub fn default_point(two_g: u64, minus_four_g: u32) -> (made: Coefficients)
        ensures
            made == Coefficients::wired(two_g, TENTH64, minus_four_g),
    {
        Coefficients::new(two_g, TENTH64, minus_four_g)
    }

    /// Replaces the entries that depend on the cutoff and the resonance: two
    /// entries of `fq` take twice the cutoff coefficient, one takes the
    /// resonance coefficient, and two entries of `c` take minus four times
    /// the cutoff coefficient. Nothing else changes.
    pub fn update_matrices(&mut self, two_g: u64, res: u64, minus_four_g: u32)
        ensures
            *final(self) == old(self).refreshed(two_g, res, minus_four_g),
    {
        self.fq[0][0] = two_g;
        self.fq[2][1] = two_g;
        self.fq[5][1] = res;
        self.c[0][0] = minus_four_g;
        self.c[1][1] = minus_four_g;
        proof {
            let want = old(self).refreshed(two_g, res, minus_four_g);
            assert forall|i: int| 0 <= i < 6 implies self.fq[i] == want.fq[i] by {
                assert(self.fq[i] =~= want.fq[i]);
            }
            assert(self.fq =~= want.fq);
            assert forall|i: int| 0 <= i < 2 implies self.c[i] == want.c[i] by {
                assert(self.c[i] =~= want.c[i]);
            }
            assert(self.c =~= want.c);
        }
    }
}

/// Refreshing the matrices for a cutoff and a resonance gives what wiring the
/// circuit for them gives, whatever they were wired for before.
pub proof fn lemma_refresh_is_rewiring(
    old_two_g: u64,
    old_res: u64,
    old_minus_four_g: u32,
    two_g: u64,
    res: u64,
    minus_four_g: u32,
)
    ensures
        Coefficients::wired(old_two_g, old_res, old_minus_four_g).refreshed(
            two_g,
            res,
            minus_four_g,
        ) == Coefficients::wired(two_g, res, minus_four_g),
{
    let got = Coefficients::wired(old_two_g, old_res, old_minus_four_g).refreshed(
        two_g,
        res,
        minus_four_g,
    );
    let want = Coefficients::wired(two_g, res, minus_four_g);
    assert forall|i: int| 0 <= i < 6 implies got.fq[i] == want.fq[i] by {
        assert(got.fq[i] =~= want.fq[i]);
    }
    assert(got.fq =~= want.fq);
    assert forall|i: int| 0 <= i < 2 implies got.c[i] == want.c[i] by {
        assert(got.c[i] =~= want.c[i]);
    }
    assert(got.c =~= want.c);
}

/// A refresh touches no matrix but `fq` and `c`, and in those only the five
/// entries that depend on the cutoff and the resonance.
pub proof fn lemma_refresh_keeps_wiring(
    before: Coefficients,
    two_g: u64,
    res: u64,
    minus_four_g: u32,
)
    ensures
        ({
            let after = before.refreshed(two_g, res, minus_four_g);
            &&& after.dq == before.dq
            &&& after.eq == before.eq
            &&& after.pexps == before.pexps
            &&& after.a == before.a
            &&& after.b == before.b
            &&& after.dy == before.dy
            &&& after.ey == before.ey
            &&& after.fy == before.fy
            &&& forall|i: int, j: int|
                0 <= i < 6 && 0 <= j < 3 && !(i == 0 && j == 0) && !(i == 2 && j == 1) && !(i == 5
                    && j == 1) ==> after.fq[i][j] == before.fq[i][j]
            &&& forall|i: int, j: int|
                0 <= i < 2 && 0 <= j < 3 && i != j ==> after.c[i][j] == before.c[i][j]
            &&& after.fq[0][0] == two_g
            &&& after.fq[2][1] == two_g
            &&& after.fq[5][1] == res
            &&& after.c[0][0] == minus_four_g
            &&& after.c[1][1] == minus_four_g
        }),
{
}

} // verus!
