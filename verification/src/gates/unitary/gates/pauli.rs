//! This gates of the three Pauli matrices.
use crate::complex::Complex;
use crate::error::QuantumError;
use crate::gates::unitary::gates::{not_matrix, z_matrix};
use crate::gates::unitary::{unitary_req, unitary_spec, UnaryGate};
use crate::matrix::Matrix2x2;
use crate::scalar::{obeys_scalar_specs, Scalar};
use core::ops::Neg;
use vstd::prelude::*;
use vstd::std_specs::ops::NegSpec;

verus! {

/// The matrix `(0 -i; i 0)`.
pub open spec fn y_matrix<T: Scalar>() -> Matrix2x2<Complex<T>> {
    Matrix2x2(
        Complex::<T>::zero_spec(),
        Complex::<T>::i_spec().neg_spec(),
        Complex::<T>::i_spec(),
        Complex::<T>::zero_spec(),
    )
}

/// The Pauli-X gate, which is the NOT gate.
pub fn x<T: Scalar>() -> (r: Result<UnaryGate<T>, QuantumError>)
    requires
        obeys_scalar_specs::<T>(),
        unitary_req(not_matrix::<T>()),
    ensures
        unitary_spec(not_matrix::<T>()) <==> r is Ok,
        r matches Ok(gate) ==> gate@ == not_matrix::<T>(),
        r matches Err(e) ==> e == QuantumError::NotUnitary,
{
    crate::gates::unitary::gates::not()
}

/// The Pauli-Y gate.
pub fn y<T: Scalar>() -> (r: Result<UnaryGate<T>, QuantumError>)
    requires
        obeys_scalar_specs::<T>(),
        Complex::<T>::i_spec().neg_req(),
        unitary_req(y_matrix::<T>()),
    ensures
        unitary_spec(y_matrix::<T>()) <==> r is Ok,
        r matches Ok(gate) ==> gate@ == y_matrix::<T>(),
        r matches Err(e) ==> e == QuantumError::NotUnitary,
{
    UnaryGate::new(
        Matrix2x2(Complex::zero(), Complex::<T>::i().neg(), Complex::i(), Complex::zero()),
    )
}

/// The Pauli-Z gate, which is the Z gate.
pub fn z<T: Scalar>() -> (r: Result<UnaryGate<T>, QuantumError>)
    requires
        obeys_scalar_specs::<T>(),
        Complex::<T>::one_spec().neg_req(),
        unitary_req(z_matrix::<T>()),
    ensures
        unitary_spec(z_matrix::<T>()) <==> r is Ok,
        r matches Ok(gate) ==> gate@ == z_matrix::<T>(),
        r matches Err(e) ==> e == QuantumError::NotUnitary,
{
    crate::gates::unitary::gates::z()
}

} // verus!
