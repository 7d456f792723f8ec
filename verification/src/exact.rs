//! The 64-bit integers as scalars.
//!
//! Their arithmetic is exact, so that what the contracts of the library
//! leave to the scalar type can be settled once and for all: the tolerance
//! is zero; the basis states, the Pauli gates, CNOT and SWAP exist, and the
//! state `|+>` and the Hadamard gate do not; the gates have their truth
//! tables and are their own inverses; normalized states stay normalized
//! under negation, under every gate and in a joint register; and a basis
//! state collapses to itself.
pub mod binary;
pub mod registers;
pub mod scalars;
pub mod unary;
pub mod units;
