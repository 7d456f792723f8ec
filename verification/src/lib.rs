//! A simulator for small quantum circuits.
//!
//! Qubits and registers are vectors of complex amplitudes, gates are unitary
//! matrices acting on them, and measurement samples a basis state with the
//! probability given by the squared magnitude of its amplitude.
//!
//! Every numeric type is generic over a [`scalar::Scalar`]: any type with the
//! usual arithmetic operators into which small integers embed. Contracts are
//! stated over the operator specifications of that type, so they are exact
//! for every scalar whose arithmetic is specified (the machine integers) and
//! describe the order of operations for all others. What they amount to
//! over the 64-bit integers is worked out in [`exact`].
//!
//! Two conventions hold throughout. In a register of two qubits the first
//! qubit is the more significant bit of the basis state's index, and it is
//! the control of CNOT. And `a.compose(b)` has the matrix `a · b`:
//! it applies `b` first.
pub mod complex;
pub mod error;
pub mod exact;
pub mod gates;

pub mod matrix;
pub mod matrix4;
pub mod qubit;
pub mod random;
pub mod registers;
pub mod scalar;
