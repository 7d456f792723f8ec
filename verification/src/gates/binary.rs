//! Gates that act on a register of two qubits.
use crate::complex::Complex;
use crate::error::QuantumError;
use crate::matrix4::{mul_vec_req, mul_vec_spec, product_req, product_spec, Matrix4x4};
use crate::registers::quantum::QuantumRegister;
use crate::scalar::{from_u8, from_u8_req, from_u8_spec, obeys_scalar_specs, Scalar};
use vstd::prelude::*;
use vstd::std_specs::ops::NegSpec;

pub mod gates;

verus! {

/// Whether `T` can conjugate every element of `m`.
pub open spec fn adjoint_req<T: Scalar>(m: Seq<Seq<Complex<T>>>) -> bool {
    forall|i: int, j: int| 0 <= i < 4 && 0 <= j < 4 ==> (#[trigger] m[i][j]).im.neg_req()
}

/// The conjugate transpose of `m`.
pub open spec fn adjoint_spec<T: Scalar>(m: Seq<Seq<Complex<T>>>) -> Seq<Seq<Complex<T>>> {
    Seq::new(4, |i: int| Seq::new(4, |j: int| m[j][i].conj_spec()))
}

/// `m` times its conjugate transpose.
pub open spec fn gram_spec<T: Scalar>(m: Seq<Seq<Complex<T>>>) -> Seq<Seq<Complex<T>>> {
    product_spec(m, adjoint_spec(m))
}

/// Element `(i, j)` of the identity.
pub open spec fn identity_at<T: Scalar>(i: int, j: int) -> Complex<T> {
    if i == j {
        Complex::<T>::one_spec()
    } else {
        Complex::<T>::zero_spec()
    }
}

/// Element `(i, j)` of `m` is that of the identity within the tolerance.
pub open spec fn near_identity_at<T: Scalar>(m: Seq<Seq<Complex<T>>>, i: int, j: int) -> bool {
    m[i][j].approx_eq_spec(identity_at::<T>(i, j))
}

/// Whether `T` can compare element `(i, j)` of `m` with the identity.
pub open spec fn near_identity_at_req<T: Scalar>(m: Seq<Seq<Complex<T>>>, i: int, j: int) -> bool {
    m[i][j].approx_eq_req(identity_at::<T>(i, j))
}

/// Whether `T` can compare `m` with the identity.
pub open spec fn approx_identity_req<T: Scalar>(m: Seq<Seq<Complex<T>>>) -> bool {
    forall|i: int, j: int| 0 <= i < 4 && 0 <= j < 4 ==> #[trigger] near_identity_at_req(m, i, j)
}

/// Every element of `m` is that of the identity within the tolerance.
pub open spec fn approx_identity_spec<T: Scalar>(m: Seq<Seq<Complex<T>>>) -> bool {
    forall|i: int, j: int| 0 <= i < 4 && 0 <= j < 4 ==> #[trigger] near_identity_at(m, i, j)
}

/// Whether every element of `m` is that of the identity within the
/// tolerance.
pub fn approx_identity<T: Scalar>(m: &Matrix4x4<Complex<T>>) -> (r: bool)
    requires
        obeys_scalar_specs::<T>(),
        approx_identity_req(m@),
    ensures
        r == approx_identity_spec(m@),
{
    let mut i: usize = 0;
    while i < 4
        invariant
            i <= 4,
            obeys_scalar_specs::<T>(),
            approx_identity_req(m@),
            forall|a: int, b: int| 0 <= a < i && 0 <= b < 4 ==> #[trigger] near_identity_at(m@, a, b),
        decreases 4 - i,
    {
        let mut j: usize = 0;
        while j < 4
            invariant
                i < 4,
                j <= 4,
                obeys_scalar_specs::<T>(),
                approx_identity_req(m@),
                forall|a: int, b: int|
                    0 <= a < i && 0 <= b < 4 ==> #[trigger] near_identity_at(m@, a, b),
                forall|b: int| 0 <= b < j ==> #[trigger] near_identity_at(m@, i as int, b),
            decreases 4 - j,
        {
            let expected = if i == j {
                Complex::<T>::one()
            } else {
                Complex::<T>::zero()
            };
            assert(near_identity_at_req(m@, i as int, j as int));
            if !m.get(i, j).approx_eq(expected) {
                assert(!near_identity_at(m@, i as int, j as int));
                return false;
            }
            j = j + 1;
        }
        i = i + 1;
    }
    true
}

/// Whether `T` can decide if `m` is unitary.
pub open spec fn unitary_req<T: Scalar>(m: Seq<Seq<Complex<T>>>) -> bool {
    &&& adjoint_req(m)
    &&& product_req(m, adjoint_spec(m))
    &&& approx_identity_req(gram_spec(m))
}

/// `m` times its conjugate transpose is the identity within the tolerance.
pub open spec fn unitary_spec<T: Scalar>(m: Seq<Seq<Complex<T>>>) -> bool {
    approx_identity_spec(gram_spec(m))
}

/// Whether `T` can embed every element of `m`.
pub open spec fn lift_req<T: Scalar>(m: Seq<Seq<u8>>) -> bool {
    forall|i: int, j: int| 0 <= i < 4 && 0 <= j < 4 ==> from_u8_req::<T>(#[trigger] m[i][j])
}

/// The matrix of bytes `m` as a matrix of amplitudes without imaginary
/// part.
pub open spec fn lift_spec<T: Scalar>(m: Seq<Seq<u8>>) -> Seq<Seq<Complex<T>>> {
    Seq::new(4, |i: int| Seq::new(4, |j: int| Complex::from_re_spec(from_u8_spec::<T>(m[i][j]))))
}

/// A binary gate: a unitary 4x4 matrix that acts on the amplitudes of
/// `|00>`, `|01>`, `|10>` and `|11>`.
#[derive(Debug, PartialEq)]
pub struct BinaryGate<T: Scalar> {
    mat: Matrix4x4<Complex<T>>,
}

impl<T: Scalar> View for BinaryGate<T> {
    type V = Seq<Seq<Complex<T>>>;

    /// The rows of this gate's matrix.
    closed spec fn view(&self) -> Seq<Seq<Complex<T>>> {
        self.mat@
    }
}

impl<T: Scalar> Clone for BinaryGate<T> {
    fn clone(&self) -> (r: Self)
        ensures
            r@ == self@,
    {
        proof {
            use_type_invariant(self);
        }
        BinaryGate { mat: self.mat }
    }
}

impl<T: Scalar> BinaryGate<T> {
    #[verifier::type_invariant]
    spec fn is_unitary(self) -> bool {
        unitary_req(self.mat@) && unitary_spec(self.mat@)
    }

    /// A gate with matrix `mat`.
    ///
    /// It exists only if `mat` is unitary: `mat` times its conjugate
    /// transpose is the identity within the tolerance.
    pub fn new(mat: Matrix4x4<Complex<T>>) -> (r: Result<Self, QuantumError>)
        requires
            obeys_scalar_specs::<T>(),
            unitary_req(mat@),
        ensures
            unitary_spec(mat@) <==> r is Ok,
            r matches Ok(gate) ==> gate@ == mat@,
            r matches Err(e) ==> e == QuantumError::NotUnitary,
    {
        let conj = |x: Complex<T>| -> (r: Complex<T>)
            requires
                obeys_scalar_specs::<T>(),
                x.im.neg_req(),
            ensures
                r == x.conj_spec(),
            { x.conj() };
        let transposed = mat.transpose();
        assert forall|i: int, j: int| 0 <= i < 4 && 0 <= j < 4 implies call_requires(
            conj,
            (#[trigger] transposed@[i][j],),
        ) by {
            assert(transposed@[i][j] == mat@[j][i]);
        }
        let adjoint = transposed.map(conj);
        assert(adjoint@ =~~= adjoint_spec(mat@)) by {
            assert forall|i: int, j: int| 0 <= i < 4 && 0 <= j < 4 implies adjoint@[i][j]
                == adjoint_spec(mat@)[i][j] by {
                assert(transposed@[i][j] == mat@[j][i]);
            }
        }
        let x = mat.product(&adjoint);
        if approx_identity(&x) {
            Ok(BinaryGate { mat })
        } else {
            Err(QuantumError::NotUnitary)
        }
    }

    /// A gate whose matrix has the given small integers as elements.
    pub fn new_u8(mat: Matrix4x4<u8>) -> (r: Result<Self, QuantumError>)
        requires
            obeys_scalar_specs::<T>(),
            lift_req::<T>(mat@),
            unitary_req(lift_spec::<T>(mat@)),
        ensures
            unitary_spec(lift_spec::<T>(mat@)) <==> r is Ok,
            r matches Ok(gate) ==> gate@ == lift_spec::<T>(mat@),
            r matches Err(e) ==> e == QuantumError::NotUnitary,
    {
        let lift = |x: u8| -> (r: Complex<T>)
            requires
                obeys_scalar_specs::<T>(),
                from_u8_req::<T>(x),
            ensures
                r == Complex::from_re_spec(from_u8_spec::<T>(x)),
            { Complex::from_re(from_u8(x)) };
        let lifted = mat.map(lift);
        assert(lifted@ =~~= lift_spec::<T>(mat@));
        Self::new(lifted)
    }

    /// The matrix of this gate. Whichever gate this is, its matrix could be
    /// checked and was found unitary.
    pub fn matrix(&self) -> (r: &Matrix4x4<Complex<T>>)
        ensures
            r@ == self@,
            unitary_req(r@),
            unitary_spec(r@),
    {
        proof {
            use_type_invariant(self);
        }
        &self.mat
    }

    /// Applies this gate to a register of two qubits: the new amplitudes
    /// are the matrix times the old ones.
    pub fn apply(&self, qubits: QuantumRegister<T, 4>) -> (r: QuantumRegister<T, 4>)
        requires
            mul_vec_req(self@, qubits@),
        ensures
            r@ == mul_vec_spec(self@, qubits@),
    {
        let v = [qubits.amplitude(0), qubits.amplitude(1), qubits.amplitude(2), qubits.amplitude(3)];
        assert(v@ =~= qubits@);
        let w = self.mat.mul_vec(&v);
        let mut out: Vec<Complex<T>> = Vec::new();
        out.push(w[0]);
        out.push(w[1]);
        out.push(w[2]);
        out.push(w[3]);
        assert(out@ =~= w@);
        let r = QuantumRegister::from_vector(out);
        r.unwrap()
    }

    /// A gate that applies `other` first and `self` after it: its matrix
    /// is the product `self · other`.
    ///
    /// The product is validated like any other matrix.
    pub fn compose(&self, other: &Self) -> (r: Result<Self, QuantumError>)
        requires
            obeys_scalar_specs::<T>(),
            product_req(self@, other@),
            unitary_req(product_spec(self@, other@)),
        ensures
            unitary_spec(product_spec(self@, other@)) <==> r is Ok,
            r matches Ok(gate) ==> gate@ == product_spec(self@, other@),
            r matches Err(e) ==> e == QuantumError::NotUnitary,
    {
        Self::new(self.mat.product(&other.mat))
    }

    /// Whether `T` can exchange the wires of a gate with matrix `m`.
    pub open spec fn swap_req(m: Seq<Seq<Complex<T>>>) -> bool {
        let s = lift_spec::<T>(gates::swap_matrix());
        &&& lift_req::<T>(gates::swap_matrix())
        &&& unitary_req(s)
        &&& product_req(s, m)
        &&& unitary_req(product_spec(s, m))
        &&& product_req(product_spec(s, m), s)
        &&& unitary_req(product_spec(product_spec(s, m), s))
    }

    /// The matrix `SWAP · m · SWAP`.
    pub open spec fn swap_spec(m: Seq<Seq<Complex<T>>>) -> Seq<Seq<Complex<T>>> {
        let s = lift_spec::<T>(gates::swap_matrix());
        product_spec(product_spec(s, m), s)
    }

    /// Whether the SWAP matrix and both products on the way to
    /// `SWAP · m · SWAP` are unitary.
    pub open spec fn swap_valid(m: Seq<Seq<Complex<T>>>) -> bool {
        let s = lift_spec::<T>(gates::swap_matrix());
        &&& unitary_spec(s)
        &&& unitary_spec(product_spec(s, m))
        &&& unitary_spec(product_spec(product_spec(s, m), s))
    }

    /// The same gate with its two wires exchanged: `SWAP · self · SWAP`.
    ///
    /// Each of the two products is validated.
    pub fn swap(&self) -> (r: Result<Self, QuantumError>)
        requires
            obeys_scalar_specs::<T>(),
            Self::swap_req(self@),
        ensures
            Self::swap_valid(self@) <==> r is Ok,
            r matches Ok(gate) ==> gate@ == Self::swap_spec(self@),
            r matches Err(e) ==> e == QuantumError::NotUnitary,
    {
        let exchange = match gates::swap::<T>() {
            Ok(gate) => gate,
            Err(e) => {
                return Err(e);
            },
        };
        let half = match exchange.compose(self) {
            Ok(gate) => gate,
            Err(e) => {
                return Err(e);
            },
        };
        half.compose(&exchange)
    }
}

} // verus!
