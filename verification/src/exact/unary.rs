//! Qubits and unary gates over the 64-bit integers.
use crate::complex::Complex;
use crate::exact::scalars::{lemma_i64_dyadic, lemma_i64_tolerance};
use crate::exact::units::{
    lemma_mag_square, lemma_small_product, lemma_unit_pair, lemma_unit_times, lemma_zero,
    lemma_zero_times, sq,
};
use crate::gates::unitary::gates::pauli::y_matrix;
use crate::gates::unitary::gates::{h_matrix, not_matrix, z_matrix};
use crate::gates::unitary::{
    adjoint_spec, apply_req, apply_spec, gram_spec, identity_matrix, unitary_req, unitary_spec,
};
use crate::matrix::{dot2_spec, Matrix2x2};
use crate::qubit::{
    basis_amplitudes, frac_1_sqrt_2_complex, norm_square_req, norm_square_spec, normalized_req,
    normalized_spec,
};
use crate::scalar::{dyadic_spec, small, FRAC_1_SQRT_2_NUMERATOR};
use vstd::prelude::*;
use vstd::std_specs::ops::{MulSpec, NegSpec};

verus! {

/// Over the 64-bit integers the amplitudes of `|0>` and of `|1>` are
/// normalized: both basis states exist.
pub proof fn lemma_i64_basis_states()
    ensures
        normalized_req(Complex::<i64>::one_spec(), Complex::<i64>::zero_spec()),
        normalized_spec(Complex::<i64>::one_spec(), Complex::<i64>::zero_spec()),
        normalized_req(Complex::<i64>::zero_spec(), Complex::<i64>::one_spec()),
        normalized_spec(Complex::<i64>::zero_spec(), Complex::<i64>::one_spec()),
{
    lemma_i64_tolerance();
    assert(small::<i64>(0) == 0);
    assert(small::<i64>(1) == 1);
}

/// Over the 64-bit integers the amplitude `1/√2` is zero, so that neither
/// the state `|+>` nor the Hadamard gate exists.
pub proof fn lemma_i64_has_no_superposition()
    ensures
        dyadic_spec::<i64>(FRAC_1_SQRT_2_NUMERATOR) == 0,
        !normalized_spec(frac_1_sqrt_2_complex::<i64>(), frac_1_sqrt_2_complex::<i64>()),
        !crate::gates::unitary::unitary_spec(h_matrix::<i64>()),
{
    lemma_i64_tolerance();
    lemma_i64_dyadic(FRAC_1_SQRT_2_NUMERATOR);
    assert(small::<i64>(0) == 0);
    assert(small::<i64>(1) == 1);
}

/// Over the 64-bit integers the matrices of the three Pauli gates are
/// unitary: the gates exist.
pub proof fn lemma_i64_pauli_gates()
    ensures
        unitary_req(not_matrix::<i64>()),
        unitary_spec(not_matrix::<i64>()),
        unitary_req(y_matrix::<i64>()),
        unitary_spec(y_matrix::<i64>()),
        unitary_req(z_matrix::<i64>()),
        unitary_spec(z_matrix::<i64>()),
{
    lemma_i64_tolerance();
    assert(small::<i64>(0) == 0);
    assert(small::<i64>(1) == 1);
}

/// Over the 64-bit integers each Pauli matrix times itself is the
/// identity.
pub proof fn lemma_i64_pauli_involutions()
    ensures
        (&not_matrix::<i64>()).mul_req(&not_matrix::<i64>()),
        (&not_matrix::<i64>()).mul_spec(&not_matrix::<i64>()) == identity_matrix::<i64>(),
        (&y_matrix::<i64>()).mul_req(&y_matrix::<i64>()),
        (&y_matrix::<i64>()).mul_spec(&y_matrix::<i64>()) == identity_matrix::<i64>(),
        (&z_matrix::<i64>()).mul_req(&z_matrix::<i64>()),
        (&z_matrix::<i64>()).mul_spec(&z_matrix::<i64>()) == identity_matrix::<i64>(),
{
    assert(small::<i64>(0) == 0);
    assert(small::<i64>(1) == 1);
}

/// Over the 64-bit integers NOT maps `|0>` to `|1>` and `|1>` to `|0>`.
pub proof fn lemma_i64_not_truth_table(bit: bool)
    ensures
        apply_req(not_matrix::<i64>(), basis_amplitudes::<i64>(bit)),
        apply_spec(not_matrix::<i64>(), basis_amplitudes::<i64>(bit)) == basis_amplitudes::<i64>(
            !bit,
        ),
{
    assert(small::<i64>(0) == 0);
    assert(small::<i64>(1) == 1);
}

/// Over the 64-bit integers Z leaves `|0>` as it is and negates `|1>`.
pub proof fn lemma_i64_z_truth_table()
    ensures
        apply_req(z_matrix::<i64>(), basis_amplitudes::<i64>(false)),
        apply_spec(z_matrix::<i64>(), basis_amplitudes::<i64>(false)) == basis_amplitudes::<i64>(
            false,
        ),
        apply_req(z_matrix::<i64>(), basis_amplitudes::<i64>(true)),
        apply_spec(z_matrix::<i64>(), basis_amplitudes::<i64>(true)) == (
            Complex::<i64>::zero_spec(),
            Complex::<i64>::one_spec().neg_spec(),
        ),
{
    assert(small::<i64>(0) == 0);
    assert(small::<i64>(1) == 1);
}

/// Two amplitudes that are normalized have squared magnitudes that sum to
/// one, and the other way round.
pub proof fn lemma_normalized_pair(a: (Complex<i64>, Complex<i64>))
    requires
        normalized_req(a.0, a.1),
    ensures
        normalized_spec(a.0, a.1) <==> sq(a.0) + sq(a.1) == 1,
{
    lemma_i64_tolerance();
    assert(small::<i64>(0) == 0);
    assert(small::<i64>(1) == 1);
}

/// Over the 64-bit integers the negation of normalized amplitudes is
/// normalized.
pub proof fn lemma_i64_negation_preserves_norm(a: (Complex<i64>, Complex<i64>))
    requires
        normalized_req(a.0, a.1),
        normalized_spec(a.0, a.1),
    ensures
        a.0.neg_req(),
        a.1.neg_req(),
        normalized_req(a.0.neg_spec(), a.1.neg_spec()),
        normalized_spec(a.0.neg_spec(), a.1.neg_spec()),
{
    lemma_i64_tolerance();
    assert(small::<i64>(0) == 0);
    assert(small::<i64>(1) == 1);
    lemma_normalized_pair(a);
    lemma_unit_pair(a.0, a.1);
    let n0 = a.0.neg_spec();
    let n1 = a.1.neg_spec();
    lemma_mag_square(n0);
    lemma_mag_square(n1);
    lemma_small_product(a.0.re as int, a.0.re as int);
    lemma_small_product(a.0.im as int, a.0.im as int);
    lemma_small_product(a.1.re as int, a.1.re as int);
    lemma_small_product(a.1.im as int, a.1.im as int);
    lemma_small_product(n0.re as int, n0.re as int);
    lemma_small_product(n0.im as int, n0.im as int);
    lemma_small_product(n1.re as int, n1.re as int);
    lemma_small_product(n1.im as int, n1.im as int);
}

/// What unitarity says of the elements of a matrix over the integers: the
/// squared magnitudes of each row sum to one, and the first row times the
/// conjugate of the second is zero.
proof fn lemma_unitary_rows(m: Matrix2x2<Complex<i64>>)
    requires
        unitary_req(m),
        unitary_spec(m),
    ensures
        sq(m.0) + sq(m.1) == 1,
        sq(m.2) + sq(m.3) == 1,
        dot2_spec(m.0, m.2.conj_spec(), m.1, m.3.conj_spec()) == Complex::<i64>::zero_spec(),
{
    lemma_i64_tolerance();
    assert(small::<i64>(0) == 0);
    assert(small::<i64>(1) == 1);
    let g = gram_spec(m);
    let ad = adjoint_spec(m);
    assert(g.0.re == 1);
    assert(g.3.re == 1);
    assert(g.1.re == 0 && g.1.im == 0);
    assert(m.0.im * (-m.0.im) == -(m.0.im * m.0.im)) by (nonlinear_arith);
    assert(m.1.im * (-m.1.im) == -(m.1.im * m.1.im)) by (nonlinear_arith);
    assert(m.2.im * (-m.2.im) == -(m.2.im * m.2.im)) by (nonlinear_arith);
    assert(m.3.im * (-m.3.im) == -(m.3.im * m.3.im)) by (nonlinear_arith);
    assert(m.0.mul_spec(ad.0).re == m.0.re * m.0.re - m.0.im * (-m.0.im));
    assert(m.1.mul_spec(ad.2).re == m.1.re * m.1.re - m.1.im * (-m.1.im));
    assert(m.2.mul_spec(ad.1).re == m.2.re * m.2.re - m.2.im * (-m.2.im));
    assert(m.3.mul_spec(ad.3).re == m.3.re * m.3.re - m.3.im * (-m.3.im));
}

/// Over the 64-bit integers a unitary matrix maps normalized amplitudes to
/// normalized amplitudes.
pub proof fn lemma_i64_gate_preserves_norm(
    m: Matrix2x2<Complex<i64>>,
    a: (Complex<i64>, Complex<i64>),
)
    requires
        unitary_req(m),
        unitary_spec(m),
        normalized_req(a.0, a.1),
        normalized_spec(a.0, a.1),
    ensures
        apply_req(m, a),
        normalized_req(apply_spec(m, a).0, apply_spec(m, a).1),
        normalized_spec(apply_spec(m, a).0, apply_spec(m, a).1),
{
    lemma_i64_tolerance();
    assert(small::<i64>(0) == 0);
    assert(small::<i64>(1) == 1);
    lemma_unitary_rows(m);
    lemma_unit_pair(m.0, m.1);
    lemma_unit_pair(m.2, m.3);
    assert(sq(a.0) + sq(a.1) == 1);
    lemma_unit_pair(a.0, a.1);
    let c2 = m.2.conj_spec();
    let c3 = m.3.conj_spec();
    assert(sq(c2) == sq(m.2)) by {
        assert((-m.2.im) * (-m.2.im) == m.2.im * m.2.im) by (nonlinear_arith);
    }
    assert(sq(c3) == sq(m.3)) by {
        assert((-m.3.im) * (-m.3.im) == m.3.im * m.3.im) by (nonlinear_arith);
    }
    let w = apply_spec(m, a);
    if sq(m.0) == 1 {
        // The first row has its unit in the first column, so the second has
        // its own in the second.
        lemma_unit_times(m.0, c2);
        lemma_zero_times(m.1, c3);
        lemma_zero(c2);
        assert(m.2.re == 0 && m.2.im == 0);
        lemma_unit_times(m.0, a.0);
        lemma_zero_times(m.1, a.1);
        lemma_zero_times(m.2, a.0);
        lemma_unit_times(m.3, a.1);
        assert(w.0 == m.0.mul_spec(a.0));
        assert(w.1 == m.3.mul_spec(a.1));
    } else {
        lemma_zero_times(m.0, c2);
        lemma_unit_times(m.1, c3);
        lemma_zero(c3);
        assert(m.3.re == 0 && m.3.im == 0);
        lemma_zero_times(m.0, a.0);
        lemma_unit_times(m.1, a.1);
        lemma_unit_times(m.2, a.0);
        lemma_zero_times(m.3, a.1);
        assert(w.0 == m.1.mul_spec(a.1));
        assert(w.1 == m.2.mul_spec(a.0));
    }
    lemma_mag_square(w.0);
    lemma_mag_square(w.1);
    assert(norm_square_req(w.0, w.1));
    assert(norm_square_spec(w.0, w.1) == 1);
}

} // verus!
