//! What Newton's method hands over after each evaluation of the device
//! equations, and how an evaluation is judged.
//!
//! The caller evaluates the saturating amplifiers and the diode pair at a
//! candidate solution; this module keeps the words it reports, decides
//! whether the residue is finite and under the tolerance, lays the devices'
//! partial derivatives out in the device Jacobian, and picks the pivots of
//! the linear solve.

use crate::word::{
    finite64, is_finite, is_within, lemma_size_follows_magnitude, magnitude, magnitude64, size64,
    INFINITY64, TOLERANCE64, ZERO64,
};
use vstd::prelude::*;

verus! {

/// The device equations evaluated at one candidate solution, in binary64
/// words.
#[derive(Clone, Copy, Debug)]
pub struct Evaluation {
    /// The probe that the devices were driven with.
    pub probe: [u64; 3],
    /// The candidate solution.
    pub z: [u64; 3],
    /// The error of each device equation at the candidate.
    pub residue: [u64; 3],
    /// The derivative of the residue by the solution.
    pub jacobian: [[u64; 3]; 3],
    /// The derivative of the residue by the probe.
    pub sensitivity: [[u64; 3]; 3],
}

/// The two derivatives that predict the next solution from a solved one.
#[derive(Clone, Copy, Debug)]
pub struct Linearization {
    /// The derivative of the residue by the solution.
    pub jacobian: [[u64; 3]; 3],
    /// The derivative of the residue by the probe.
    pub sensitivity: [[u64; 3]; 3],
}

/// The last solved probe with its solution and derivatives: where the
/// prediction of the next solution and every blended probe start from.
#[derive(Clone, Copy, Debug)]
pub struct Origin {
    /// The solved probe.
    pub p: [u64; 3],
    /// Its solution.
    pub z: [u64; 3],
    /// The derivative of the residue by the solution, at the solution.
    pub jacobian: [[u64; 3]; 3],
    /// The derivative of the residue by the probe, at the solution.
    pub sensitivity: [[u64; 3]; 3],
}

/// How a residue stands against the tolerance.
#[derive(Clone, Copy, Debug, PartialEq, Eq, Structural)]
pub enum Residual {
    /// Some component is an infinity or a NaN.
    NonFinite,
    /// Every component is finite and smaller than the tolerance.
    Converged,
    /// Every component is finite and some component is not smaller than the
    /// tolerance.
    Open,
}

/// Every component of the residue is finite.
pub open spec fn all_finite(residue: [u64; 3]) -> bool {
    forall|i: int| 0 <= i < 3 ==> finite64(#[trigger] residue[i])
}

/// Every component of the residue is finite and smaller in absolute value
/// than the tolerance.
pub open spec fn within_tolerance(residue: [u64; 3]) -> bool {
    forall|i: int|
        0 <= i < 3 ==> finite64(#[trigger] residue[i]) && size64(residue[i]) < size64(TOLERANCE64)
}

/// How a residue stands against the tolerance.
pub open spec fn judged(residue: [u64; 3]) -> Residual {
    if !all_finite(residue) {
        Residual::NonFinite
    } else if within_tolerance(residue) {
        Residual::Converged
    } else {
        Residual::Open
    }
}

/// The origin that an evaluation leaves when it is accepted.
pub open spec fn origin_of(eval: Evaluation) -> Origin {
    Origin { p: eval.probe, z: eval.z, jacobian: eval.jacobian, sensitivity: eval.sensitivity }
}

/// The origin at rest: the zero probe and the zero solution, under the
/// derivatives found there.
pub open spec fn origin_at_rest(priming: Linearization) -> Origin {
    Origin {
        p: [ZERO64, ZERO64, ZERO64],
        z: [ZERO64, ZERO64, ZERO64],
        jacobian: priming.jacobian,
        sensitivity: priming.sensitivity,
    }
}

/// The entry of the device Jacobian in the row of `device` and the column of
/// full-probe slot `slot`: each device's two partial derivatives stand in the
/// columns of its own two terminals, and nought stands everywhere else.
pub open spec fn slot_entry(partials: [[u64; 2]; 3], device: int, slot: int) -> u64 {
    if slot == 2 * device {
        partials[device][0]
    } else if slot == 2 * device + 1 {
        partials[device][1]
    } else {
        ZERO64
    }
}

/// The convergence metric of a residue: the largest magnitude among its
/// components, as the word of that absolute value, or nothing where a
/// component is not finite.
pub fn resmaxabs(residue: &[u64; 3]) -> (metric: Option<u64>)
    ensures
        metric is None <==> !all_finite(*residue),
        metric matches Some(m) ==> {
            &&& m < INFINITY64
            &&& forall|i: int| 0 <= i < 3 ==> magnitude64(#[trigger] residue[i]) <= m
            &&& (exists|i: int| 0 <= i < 3 && magnitude64(#[trigger] residue[i]) == m)
        },
{
    if !is_finite(residue[0]) {
        return None;
    }
    let mut largest: u64 = magnitude(residue[0]);
    let mut at: usize = 0;
    let mut i: usize = 1;
    while i < 3
        invariant
            1 <= i <= 3,
            at < i,
            largest == magnitude64(residue[at as int]),
            largest < INFINITY64,
            forall|j: int| 0 <= j < i ==> finite64(#[trigger] residue[j]),
            forall|j: int| 0 <= j < i ==> magnitude64(#[trigger] residue[j]) <= largest,
        decreases 3 - i,
    {
        if !is_finite(residue[i]) {
            return None;
        }
        let m: u64 = magnitude(residue[i]);
        if m > largest {
            largest = m;
            at = i;
        }
        i = i + 1;
    }
    Some(largest)
}

/// Judges a residue: not finite, converged, or still open.
pub fn classify(residue: &[u64; 3]) -> (verdict: Residual)
    ensures
        verdict == judged(*residue),
{
    match resmaxabs(residue) {
        None => Residual::NonFinite,
        Some(m) => {
            let under = is_within(m, TOLERANCE64);
            proof {
                assert(m & 0x7fff_ffff_ffff_ffff == m) by (bit_vector)
                    requires
                        m < 0x7ff0_0000_0000_0000u64,
                ;
                assert forall|i: int| 0 <= i < 3 implies (size64(#[trigger] residue[i]) <= size64(
                    m,
                ) && (magnitude64(residue[i]) == m ==> size64(residue[i]) == size64(m))) by {
                    lemma_size_follows_magnitude(residue[i], m);
                    lemma_size_follows_magnitude(m, residue[i]);
                }
                if under {
                    assert(within_tolerance(*residue));
                } else {
                    let i = choose|i: int| 0 <= i < 3 && magnitude64(#[trigger] residue[i]) == m;
                    assert(!(size64(residue[i]) < size64(TOLERANCE64)));
                    assert(!within_tolerance(*residue));
                }
            }
            if under {
                Residual::Converged
            } else {
                Residual::Open
            }
        },
    }
}

/// The row that Gaussian elimination takes its pivot from in a column, from
/// row `from` on: the first row among those whose entry is largest in
/// magnitude.
pub open spec fn is_pivot(column: [u64; 3], from: int, row: int) -> bool {
    &&& from <= row < 3
    &&& forall|r: int|
        from <= r < 3 ==> magnitude64(#[trigger] column[r]) <= magnitude64(column[row])
    &&& forall|r: int|
        from <= r < row ==> magnitude64(#[trigger] column[r]) < magnitude64(column[row])
}

/// Picks the pivot row of a column for Gaussian elimination with partial
/// pivoting: among the rows from `from` on, the first whose entry is largest
/// in absolute value. With `from` past the last row there is no choice, and
/// the last row is given.
pub fn pivot_row(column: &[u64; 3], from: usize) -> (row: usize)
    ensures
        from < 3 ==> is_pivot(*column, from as int, row as int),
        from >= 3 ==> row == 2,
        from < 3 ==> forall|r: int|
            from <= r < 3 && finite64(#[trigger] column[r]) && finite64(column[row as int])
                ==> size64(column[r]) <= size64(column[row as int]),
{
    if from >= 3 {
        return 2;
    }
    let mut row: usize = from;
    let mut r: usize = from + 1;
    while r < 3
        invariant
            from <= row < r <= 3,
            forall|k: int|
                from <= k < r ==> magnitude64(#[trigger] column[k]) <= magnitude64(
                    column[row as int],
                ),
            forall|k: int|
                from <= k < row ==> magnitude64(#[trigger] column[k]) < magnitude64(
                    column[row as int],
                ),
        decreases 3 - r,
    {
        if magnitude(column[r]) > magnitude(column[row]) {
            row = r;
        }
        r = r + 1;
    }
    proof {
        assert forall|k: int|
            from <= k < 3 && finite64(#[trigger] column[k]) && finite64(column[row as int])
            implies size64(column[k]) <= size64(column[row as int]) by {
            lemma_size_follows_magnitude(column[k], column[row as int]);
        }
    }
    row
}

/// Tells whether two probes are the same word for word.
pub fn same_probe(a: &[u64; 3], b: &[u64; 3]) -> (same: bool)
    ensures
        same == (*a == *b),
{
    let same = a[0] == b[0] && a[1] == b[1] && a[2] == b[2];
    proof {
        if same {
            assert(*a =~= *b);
        }
    }
    same
}

/// Lays the partial derivatives of the three devices out in the device
/// Jacobian, one row for each device and one column for each slot of the full
/// probe.
pub fn place_partials(partials: &[[u64; 2]; 3]) -> (jq: [[u64; 6]; 3])
    ensures
        forall|device: int, slot: int|
            0 <= device < 3 && 0 <= slot < 6 ==> #[trigger] jq[device][slot] == slot_entry(
                *partials,
                device,
                slot,
            ),
{
    let mut jq: [[u64; 6]; 3] = [[ZERO64; 6]; 3];
    let mut device: usize = 0;
    while device < 3
        invariant
            device <= 3,
            forall|d: int, slot: int|
                0 <= d < device && 0 <= slot < 6 ==> #[trigger] jq[d][slot] == slot_entry(
                    *partials,
                    d,
                    slot,
                ),
            forall|d: int, slot: int|
                device <= d < 3 && 0 <= slot < 6 ==> #[trigger] jq[d][slot] == ZERO64,
        decreases 3 - device,
    {
        jq[device][2 * device] = partials[device][0];
        jq[device][2 * device + 1] = partials[device][1];
        device = device + 1;
    }
    jq
}

} // verus!
