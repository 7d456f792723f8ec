//! Gates: unitary matrices that act on qubits and registers.
pub mod binary;
pub mod unitary;
