//! How residues are judged and how the solver's tables are laid out.

use svf_dk::solver::{classify, pivot_row, place_partials, resmaxabs, same_probe, Residual};
use svf_dk::word::TOLERANCE64;

fn bits(x: [f64; 3]) -> [u64; 3] {
    [x[0].to_bits(), x[1].to_bits(), x[2].to_bits()]
}

#[test]
fn the_metric_is_the_largest_absolute_residue() {
    assert_eq!(resmaxabs(&bits([0.0, 0.0, 0.0])), Some(0));
    assert_eq!(resmaxabs(&bits([1.0, -3.0, 2.0])), Some(3.0f64.to_bits()));
    assert_eq!(resmaxabs(&bits([-7.5, 3.0, 2.0])), Some(7.5f64.to_bits()));
    assert_eq!(resmaxabs(&bits([1e-9, -1e-12, -1e-7])), Some(1e-7f64.to_bits()));
    assert_eq!(resmaxabs(&bits([-0.0, 0.0, 5e-324])), Some(1));
    assert_eq!(resmaxabs(&bits([f64::MAX, 0.0, 0.0])), Some(f64::MAX.to_bits()));
}

#[test]
fn a_residue_that_is_not_finite_has_no_metric() {
    for at in 0..3 {
        for bad in [f64::NAN, f64::INFINITY, f64::NEG_INFINITY] {
            let mut r = [0.0, 0.0, 0.0];
            r[at] = bad;
            assert_eq!(resmaxabs(&bits(r)), None);
            assert_eq!(classify(&bits(r)), Residual::NonFinite);
        }
    }
    // A NaN behind small components is still a failure.
    assert_eq!(classify(&bits([0.0, 0.0, f64::NAN])), Residual::NonFinite);
    assert_eq!(classify(&bits([f64::NAN, 1.0, 1.0])), Residual::NonFinite);
}

#[test]
fn the_tolerance_is_one_part_in_a_hundred_thousand() {
    assert_eq!(classify(&bits([0.0, 0.0, 0.0])), Residual::Converged);
    assert_eq!(classify(&bits([9.9e-6, -9.9e-6, 1e-9])), Residual::Converged);
    assert_eq!(classify(&bits([1e-5, 0.0, 0.0])), Residual::Open);
    assert_eq!(classify(&bits([0.0, -1e-5, 0.0])), Residual::Open);
    assert_eq!(classify(&bits([0.0, 0.0, 1.1e-5])), Residual::Open);
    assert_eq!(classify(&bits([1e300, 0.0, 0.0])), Residual::Open);
    assert_eq!(classify(&[TOLERANCE64 - 1, 0, 0]), Residual::Converged);
    assert_eq!(classify(&[0, TOLERANCE64, 0]), Residual::Open);
    assert_eq!(classify(&[0, 0, TOLERANCE64 | (1 << 63)]), Residual::Open);
    for a in [-2e-5f64, -1e-5, -5e-6, 0.0, 5e-6, 1e-5, 2e-5] {
        for b in [-2e-5f64, 0.0, 9.999e-6, 3.0] {
            let want =
                if a.abs().max(b.abs()) < 1e-5 { Residual::Converged } else { Residual::Open };
            assert_eq!(classify(&bits([a, b, 0.0])), want);
            assert_eq!(classify(&bits([0.0, a, b])), want);
        }
    }
}

#[test]
fn partials_stand_in_the_columns_of_their_terminals() {
    let jq = place_partials(&[[11, 12], [21, 22], [31, 32]]);
    assert_eq!(jq, [[11, 12, 0, 0, 0, 0], [0, 0, 21, 22, 0, 0], [0, 0, 0, 0, 31, 32]]);
    let jq = place_partials(&[[0, 0], [0, 0], [0, 0]]);
    assert_eq!(jq, [[0; 6]; 3]);
}

#[test]
fn the_pivot_is_the_first_largest_entry() {
    assert_eq!(pivot_row(&bits([1.0, -3.0, 2.0]), 0), 1);
    assert_eq!(pivot_row(&bits([1.0, -3.0, 2.0]), 1), 1);
    assert_eq!(pivot_row(&bits([1.0, -3.0, 2.0]), 2), 2);
    assert_eq!(pivot_row(&bits([5.0, -3.0, 2.0]), 0), 0);
    assert_eq!(pivot_row(&bits([5.0, -3.0, 4.0]), 1), 2);
    assert_eq!(pivot_row(&bits([2.0, -2.0, 2.0]), 0), 0);
    assert_eq!(pivot_row(&bits([0.0, -2.0, 2.0]), 0), 1);
    assert_eq!(pivot_row(&bits([0.0, 0.0, 0.0]), 0), 0);
    assert_eq!(pivot_row(&bits([0.0, 0.0, 0.0]), 1), 1);
    assert_eq!(pivot_row(&bits([9.0, 9.0, 9.0]), 3), 2);
    for column in [[1.0, 2.0, 3.0], [-4.0, 0.5, 3.0], [1e-9, -1e9, 7.0], [0.0, -0.0, 1e-300]] {
        for from in 0..3 {
            let mut want = from;
            for r in from + 1..3 {
                if f64::abs(column[r]) > f64::abs(column[want]) {
                    want = r;
                }
            }
            assert_eq!(pivot_row(&bits(column), from), want);
        }
    }
}

#[test]
fn probes_are_compared_word_for_word() {
    assert!(same_probe(&[1, 2, 3], &[1, 2, 3]));
    assert!(!same_probe(&[1, 2, 3], &[0, 2, 3]));
    assert!(!same_probe(&[1, 2, 3], &[1, 0, 3]));
    assert!(!same_probe(&[1, 2, 3], &[1, 2, 0]));
    // Nought and minus nought are different words.
    assert!(!same_probe(&bits([0.0, 0.0, 0.0]), &bits([-0.0, 0.0, 0.0])));
}
