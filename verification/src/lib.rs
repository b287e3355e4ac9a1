//! The memory and the decisions of a two-pole state-variable filter whose
//! saturating amplifiers and diode pair are solved as an implicit circuit
//! system once per sample.
//!
//! The arithmetic of the circuit is floating point and belongs to the
//! caller. This library never computes with a number: it holds each as the
//! word that encodes it, reads from the word whether the number is finite and
//! how large it is, and decides on that. It owns the state vector, the
//! coefficient matrices and the extrapolation origin of the solver; it says
//! when Newton's method has converged, when an attempt is given up and which
//! probe the homotopy sweep tries next; and it ends every sample with a
//! finite output, holding the last good one where the solver found nothing.
//!
//! - [`word`]: binary64 and binary32 words and what they encode.
//! - [`mode`]: the five responses and the terms of each.
//! - [`coefficients`]: the matrices of the circuit.
//! - [`solver`]: evaluations of the device equations and how they are judged.
//! - [`continuation`]: the fraction that the homotopy sweep steps along.
//! - [`svf`]: the filter.

pub mod coefficients;
pub mod continuation;
pub mod mode;
pub mod solver;
pub mod svf;
pub mod word;
