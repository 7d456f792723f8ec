//! The ways in which building a value can fail.
use vstd::prelude::*;

verus! {

/// Why a constructor refused its input.
#[derive(Debug, Clone, Copy, PartialEq, Eq, Structural)]
pub enum QuantumError {
    /// The squared magnitudes of the amplitudes do not sum to one within the
    /// tolerance.
    NotNormalized,
    /// The matrix times its conjugate transpose is not the identity within
    /// the tolerance.
    NotUnitary,
    /// More bits were given than a classical register holds.
    Overflow,
    /// The number of amplitudes does not fit the register.
    DimensionMismatch,
}

} // verus!
