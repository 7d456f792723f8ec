//! Gates that map a qubit to a qubit.
use crate::complex::Complex;
use crate::error::QuantumError;
use crate::matrix::{dot2_req, dot2_spec, Matrix2x2};
use crate::qubit::Qubit;
use crate::scalar::{obeys_scalar_specs, Scalar};
use core::ops::Mul;
use vstd::prelude::*;
use vstd::std_specs::ops::{MulSpec, NegSpec};

pub mod gates;

verus! {

/// Whether `T` can conjugate every element of `m`.
pub open spec fn adjoint_req<T: Scalar>(m: Matrix2x2<Complex<T>>) -> bool {
    &&& m.0.im.neg_req()
    &&& m.1.im.neg_req()
    &&& m.2.im.neg_req()
    &&& m.3.im.neg_req()
}

/// The conjugate transpose of `m`.
pub open spec fn adjoint_spec<T: Scalar>(m: Matrix2x2<Complex<T>>) -> Matrix2x2<Complex<T>> {
    Matrix2x2(m.0.conj_spec(), m.2.conj_spec(), m.1.conj_spec(), m.3.conj_spec())
}

/// The 2x2 identity matrix of amplitudes.
pub open spec fn identity_matrix<T: Scalar>() -> Matrix2x2<Complex<T>> {
    Matrix2x2(
        Complex::<T>::one_spec(),
        Complex::<T>::zero_spec(),
        Complex::<T>::zero_spec(),
        Complex::<T>::one_spec(),
    )
}

/// Whether `T` can compare `m` with the identity.
pub open spec fn approx_identity_req<T: Scalar>(m: Matrix2x2<Complex<T>>) -> bool {
    &&& m.0.approx_eq_req(Complex::<T>::one_spec())
    &&& m.1.approx_eq_req(Complex::<T>::zero_spec())
    &&& m.2.approx_eq_req(Complex::<T>::zero_spec())
    &&& m.3.approx_eq_req(Complex::<T>::one_spec())
}

/// Every element of `m` is that of the identity within the tolerance.
pub open spec fn approx_identity_spec<T: Scalar>(m: Matrix2x2<Complex<T>>) -> bool {
    &&& m.0.approx_eq_spec(Complex::<T>::one_spec())
    &&& m.1.approx_eq_spec(Complex::<T>::zero_spec())
    &&& m.2.approx_eq_spec(Complex::<T>::zero_spec())
    &&& m.3.approx_eq_spec(Complex::<T>::one_spec())
}

/// Whether every element of `m` is that of the identity within the
/// tolerance.
pub fn approx_identity<T: Scalar>(m: &Matrix2x2<Complex<T>>) -> (r: bool)
    requires
        obeys_scalar_specs::<T>(),
        approx_identity_req(*m),
    ensures
        r == approx_identity_spec(*m),
{
    m.0.approx_eq(Complex::one()) && m.1.approx_eq(Complex::zero()) && m.2.approx_eq(
        Complex::zero(),
    ) && m.3.approx_eq(Complex::one())
}

/// `m` times its conjugate transpose.
pub open spec fn gram_spec<T: Scalar>(m: Matrix2x2<Complex<T>>) -> Matrix2x2<Complex<T>> {
    (&m).mul_spec(&adjoint_spec(m))
}

/// Whether `T` can decide if `m` is unitary.
pub open spec fn unitary_req<T: Scalar>(m: Matrix2x2<Complex<T>>) -> bool {
    &&& adjoint_req(m)
    &&& (&m).mul_req(&adjoint_spec(m))
    &&& approx_identity_req(gram_spec(m))
}

/// `m` times its conjugate transpose is the identity within the tolerance.
pub open spec fn unitary_spec<T: Scalar>(m: Matrix2x2<Complex<T>>) -> bool {
    approx_identity_spec(gram_spec(m))
}

/// Whether `T` can multiply `m` with the column of the two amplitudes.
pub open spec fn apply_req<T: Scalar>(
    m: Matrix2x2<Complex<T>>,
    amplitudes: (Complex<T>, Complex<T>),
) -> bool {
    &&& dot2_req(m.0, amplitudes.0, m.1, amplitudes.1)
    &&& dot2_req(m.2, amplitudes.0, m.3, amplitudes.1)
}

/// The matrix `m` times the column of the two amplitudes.
pub open spec fn apply_spec<T: Scalar>(
    m: Matrix2x2<Complex<T>>,
    amplitudes: (Complex<T>, Complex<T>),
) -> (Complex<T>, Complex<T>) {
    (
        dot2_spec(m.0, amplitudes.0, m.1, amplitudes.1),
        dot2_spec(m.2, amplitudes.0, m.3, amplitudes.1),
    )
}

/// A unary gate: a unitary 2x2 matrix that maps a qubit to a qubit.
#[derive(Debug, PartialEq)]
pub struct UnaryGate<T: Scalar> {
    mat: Matrix2x2<Complex<T>>,
}

impl<T: Scalar> View for UnaryGate<T> {
    type V = Matrix2x2<Complex<T>>;

    /// The matrix of this gate.
    closed spec fn view(&self) -> Matrix2x2<Complex<T>> {
        self.mat
    }
}

impl<T: Scalar> Clone for UnaryGate<T> {
    fn clone(&self) -> (r: Self)
        ensures
            r@ == self@,
    {
        proof {
            use_type_invariant(self);
        }
        UnaryGate { mat: Matrix2x2(self.mat.0, self.mat.1, self.mat.2, self.mat.3) }
    }
}

impl<T: Scalar> UnaryGate<T> {
    #[verifier::type_invariant]
    spec fn is_unitary(self) -> bool {
        unitary_req(self.mat) && unitary_spec(self.mat)
    }

    /// A gate with matrix `mat`.
    ///
    /// It exists only if `mat` is unitary: `mat` times its conjugate
    /// transpose is the identity within the tolerance.
    pub fn new(mat: Matrix2x2<Complex<T>>) -> (r: Result<Self, QuantumError>)
        requires
            obeys_scalar_specs::<T>(),
            unitary_req(mat),
        ensures
            unitary_spec(mat) <==> r is Ok,
            r matches Ok(gate) ==> gate@ == mat,
            r matches Err(e) ==> e == QuantumError::NotUnitary,
    {
        let conj = |x: Complex<T>| -> (r: Complex<T>)
            requires
                obeys_scalar_specs::<T>(),
                x.im.neg_req(),
            ensures
                r == x.conj_spec(),
            { x.conj() };
        let adjoint = mat.transpose().map(conj);
        assert(adjoint == adjoint_spec(mat));
        let x = (&mat).mul(&adjoint);
        if approx_identity(&x) {
            Ok(UnaryGate { mat })
        } else {
            Err(QuantumError::NotUnitary)
        }
    }

    /// The matrix of this gate. Whichever gate this is, its matrix could be
    /// checked and was found unitary.
    pub fn matrix(&self) -> (r: &Matrix2x2<Complex<T>>)
        ensures
            *r == self@,
            unitary_req(*r),
            unitary_spec(*r),
    {
        proof {
            use_type_invariant(self);
        }
        &self.mat
    }

    /// Whether `T` can apply this gate to `q`.
    pub open spec fn run_req(&self, q: Qubit<T>) -> bool {
        apply_req(self@, q@)
    }

    /// The amplitudes of `q` after this gate.
    pub open spec fn run_spec(&self, q: Qubit<T>) -> (Complex<T>, Complex<T>) {
        apply_spec(self@, q@)
    }

    /// Runs this gate on a qubit: the new amplitudes are the matrix times
    /// the old ones.
    pub fn run(&self, q: Qubit<T>) -> (r: Qubit<T>)
        requires
            obeys_scalar_specs::<T>(),
            self.run_req(q),
        ensures
            r@ == self.run_spec(q),
    {
        let p_0 = q.p_0();
        let p_1 = q.p_1();
        Qubit::from_amplitudes(
            self.mat.0 * p_0 + self.mat.1 * p_1,
            self.mat.2 * p_0 + self.mat.3 * p_1,
        )
    }
}

} // verus!
