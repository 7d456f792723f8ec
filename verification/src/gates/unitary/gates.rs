//! The usual gates on one qubit.
use crate::complex::Complex;
use crate::error::QuantumError;
use crate::gates::unitary::{unitary_req, unitary_spec, UnaryGate};
use crate::matrix::Matrix2x2;
use crate::scalar::{dyadic_req, dyadic_spec, frac_1_sqrt_2, obeys_scalar_specs, Scalar, FRAC_1_SQRT_2_NUMERATOR};
use core::ops::Neg;
use vstd::prelude::*;
use vstd::std_specs::ops::{MulSpec, NegSpec};

pub mod pauli;

verus! {

/// The matrix that exchanges the two amplitudes.
pub open spec fn not_matrix<T: Scalar>() -> Matrix2x2<Complex<T>> {
    Matrix2x2(
        Complex::<T>::zero_spec(),
        Complex::<T>::one_spec(),
        Complex::<T>::one_spec(),
        Complex::<T>::zero_spec(),
    )
}

/// The matrix that negates the amplitude of `|1>`.
pub open spec fn z_matrix<T: Scalar>() -> Matrix2x2<Complex<T>> {
    Matrix2x2(
        Complex::<T>::one_spec(),
        Complex::<T>::zero_spec(),
        Complex::<T>::zero_spec(),
        Complex::<T>::one_spec().neg_spec(),
    )
}

/// Whether `T` can compute the Hadamard matrix.
pub open spec fn h_matrix_req<T: Scalar>() -> bool {
    let h = dyadic_spec::<T>(FRAC_1_SQRT_2_NUMERATOR);
    let one = Complex::<T>::one_spec();
    &&& dyadic_req::<T>(FRAC_1_SQRT_2_NUMERATOR)
    &&& one.neg_req()
    &&& one.mul_req(h)
    &&& one.neg_spec().mul_req(h)
}

/// The Hadamard matrix: `(1 1; 1 -1)` with every element times the square
/// root of one half.
pub open spec fn h_matrix<T: Scalar>() -> Matrix2x2<Complex<T>> {
    let h = dyadic_spec::<T>(FRAC_1_SQRT_2_NUMERATOR);
    let one = Complex::<T>::one_spec();
    Matrix2x2(one.mul_spec(h), one.mul_spec(h), one.mul_spec(h), one.neg_spec().mul_spec(h))
}

/// The NOT gate, also called Pauli-X.
pub fn not<T: Scalar>() -> (r: Result<UnaryGate<T>, QuantumError>)
    requires
        obeys_scalar_specs::<T>(),
        unitary_req(not_matrix::<T>()),
    ensures
        unitary_spec(not_matrix::<T>()) <==> r is Ok,
        r matches Ok(gate) ==> gate@ == not_matrix::<T>(),
        r matches Err(e) ==> e == QuantumError::NotUnitary,
{
    UnaryGate::new(Matrix2x2(Complex::zero(), Complex::one(), Complex::one(), Complex::zero()))
}

/// The Z gate, also called Pauli-Z.
pub fn z<T: Scalar>() -> (r: Result<UnaryGate<T>, QuantumError>)
    requires
        obeys_scalar_specs::<T>(),
        Complex::<T>::one_spec().neg_req(),
        unitary_req(z_matrix::<T>()),
    ensures
        unitary_spec(z_matrix::<T>()) <==> r is Ok,
        r matches Ok(gate) ==> gate@ == z_matrix::<T>(),
        r matches Err(e) ==> e == QuantumError::NotUnitary,
{
    UnaryGate::new(
        Matrix2x2(Complex::one(), Complex::zero(), Complex::zero(), Complex::<T>::one().neg()),
    )
}

/// The Hadamard gate.
pub fn h<T: Scalar>() -> (r: Result<UnaryGate<T>, QuantumError>)
    requires
        obeys_scalar_specs::<T>(),
        h_matrix_req::<T>(),
        unitary_req(h_matrix::<T>()),
    ensures
        unitary_spec(h_matrix::<T>()) <==> r is Ok,
        r matches Ok(gate) ==> gate@ == h_matrix::<T>(),
        r matches Err(e) ==> e == QuantumError::NotUnitary,
{
    let h = frac_1_sqrt_2::<T>();
    let scale = |x: Complex<T>| -> (r: Complex<T>)
        requires
            x.mul_req(h),
        ensures
            r == x.mul_spec(h),
        { x * h };
    let ones = Matrix2x2(
        Complex::<T>::one(),
        Complex::<T>::one(),
        Complex::<T>::one(),
        Complex::<T>::one().neg(),
    );
    UnaryGate::new(ones.map(scale))
}

} // verus!
