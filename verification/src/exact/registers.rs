//! Registers over the 64-bit integers.
use crate::complex::Complex;
use crate::exact::scalars::{lemma_i64_is_exact, lemma_i64_tolerance};
use crate::exact::unary::lemma_normalized_pair;
use crate::exact::units::{lemma_mag_square, lemma_unit_pair, lemma_unit_times, lemma_zero_times, sq};
use crate::qubit::{normalized_req, normalized_spec};
use crate::registers::quantum::{
    basis_spec, collapse_req, collapse_spec, lemma_basis_collapses_to_itself, lemma_basis_mass,
    mass_req, mass_spec, reduced_req, reduced_spec, tensor_req, tensor_spec, valid_req,
    valid_spec,
};
use crate::scalar::{approx_eq_spec, exact_units, small, Scalar};
use vstd::std_specs::ops::AddSpec;
use vstd::prelude::*;

verus! {

/// The probabilities of four amplitudes with parts between minus one and
/// one add up to the sum of their squared magnitudes.
pub proof fn lemma_mass_of_four(v: Seq<Complex<i64>>)
    requires
        v.len() == 4,
        forall|j: int| 0 <= j < 4 ==> -1 <= (#[trigger] v[j]).re <= 1 && -1 <= v[j].im <= 1,
    ensures
        mass_req(v, 4),
        mass_spec(v, 4) == sq(v[0]) + sq(v[1]) + sq(v[2]) + sq(v[3]),
{
    assert(small::<i64>(0) == 0);
    lemma_mag_square(v[0]);
    lemma_mag_square(v[1]);
    lemma_mag_square(v[2]);
    lemma_mag_square(v[3]);
    reveal_with_fuel(mass_spec, 5);
    reveal_with_fuel(mass_req, 5);
}

/// Four amplitudes that are normalized have squared magnitudes that sum to
/// one.
pub proof fn lemma_valid_of_four(v: Seq<Complex<i64>>)
    requires
        v.len() == 4,
        valid_req(v),
        valid_spec(v),
    ensures
        sq(v[0]) + sq(v[1]) + sq(v[2]) + sq(v[3]) == 1,
{
    lemma_i64_tolerance();
    assert(small::<i64>(0) == 0);
    assert(small::<i64>(1) == 1);
    reveal_with_fuel(mass_spec, 5);
    reveal_with_fuel(mass_req, 5);
    assert(mass_spec(v, 4) == 1);
}

/// Over the 64-bit integers the register of one normalized qubit is
/// normalized.
pub proof fn lemma_i64_register_of_qubit(a: (Complex<i64>, Complex<i64>))
    requires
        normalized_req(a.0, a.1),
        normalized_spec(a.0, a.1),
    ensures
        valid_req(seq![a.0, a.1]),
        valid_spec(seq![a.0, a.1]),
{
    lemma_i64_tolerance();
    assert(small::<i64>(0) == 0);
    assert(small::<i64>(1) == 1);
    lemma_normalized_pair(a);
    lemma_unit_pair(a.0, a.1);
    lemma_mag_square(a.0);
    lemma_mag_square(a.1);
    reveal_with_fuel(mass_spec, 3);
    reveal_with_fuel(mass_req, 3);
}

/// Over the 64-bit integers the joint state of two normalized qubits is
/// normalized.
pub proof fn lemma_i64_tensor_is_normalized(
    a: (Complex<i64>, Complex<i64>),
    b: (Complex<i64>, Complex<i64>),
)
    requires
        normalized_req(a.0, a.1),
        normalized_spec(a.0, a.1),
        normalized_req(b.0, b.1),
        normalized_spec(b.0, b.1),
    ensures
        tensor_req(a, b),
        valid_req(tensor_spec(a, b)),
        valid_spec(tensor_spec(a, b)),
{
    lemma_i64_tolerance();
    assert(small::<i64>(0) == 0);
    assert(small::<i64>(1) == 1);
    lemma_normalized_pair(a);
    lemma_normalized_pair(b);
    lemma_unit_pair(a.0, a.1);
    lemma_unit_pair(b.0, b.1);
    if sq(a.0) == 1 {
        lemma_unit_times(a.0, b.0);
        lemma_unit_times(a.0, b.1);
        lemma_zero_times(a.1, b.0);
        lemma_zero_times(a.1, b.1);
    } else {
        lemma_zero_times(a.0, b.0);
        lemma_zero_times(a.0, b.1);
        lemma_unit_times(a.1, b.0);
        lemma_unit_times(a.1, b.1);
    }
    let w = tensor_spec(a, b);
    lemma_mass_of_four(w);
}

/// Over the 64-bit integers every target can be reduced, and the reduced
/// target is zero: the only integer of `[0, 1)`.
pub proof fn lemma_i64_reduced(target: i64)
    ensures
        reduced_req(target),
        reduced_spec(target) == 0,
{
    assert(small::<i64>(1) == 1);
    assert(small::<i64>(0) == 0);
}

/// In every scalar type in which zero and one are exact, the register of
/// a basis state is normalized if and only if one is within the tolerance
/// of one.
pub proof fn lemma_basis_is_valid<T: Scalar>(n: nat, k: int)
    requires
        0 <= k < n,
        exact_units::<T>(),
    ensures
        valid_spec(basis_spec::<T>(n, k)) == approx_eq_spec(small::<T>(1), small::<T>(1)),
{
    lemma_basis_mass::<T>(n, k, n);
}

/// Over the 64-bit integers the probabilities of a basis state can be
/// added up as far as one likes.
proof fn lemma_i64_basis_mass_req(n: nat, k: int, i: nat)
    requires
        0 <= k < n,
        i <= n,
    ensures
        mass_req(basis_spec::<i64>(n, k), i),
    decreases i,
{
    lemma_i64_is_exact();
    assert(small::<i64>(1) == 1);
    assert(small::<i64>(0) == 0);
    if i > 0 {
        lemma_i64_basis_mass_req(n, k, (i - 1) as nat);
        lemma_basis_mass::<i64>(n, k, (i - 1) as nat);
        let z = basis_spec::<i64>(n, k)[i - 1];
        assert(z == (if i - 1 == k {
            Complex::<i64>::one_spec()
        } else {
            Complex::<i64>::zero_spec()
        }));
    }
}

/// Over the 64-bit integers the register of every basis state is
/// normalized: a register exists for every classical pattern below the
/// number of its states, and the collapse of it can be computed for every
/// target.
pub proof fn lemma_i64_basis_register(n: nat, k: int, target: i64)
    requires
        0 <= k < n,
    ensures
        valid_req(basis_spec::<i64>(n, k)),
        valid_spec(basis_spec::<i64>(n, k)),
        reduced_req(target),
        collapse_req(basis_spec::<i64>(n, k), reduced_spec(target)),
{
    lemma_i64_is_exact();
    lemma_i64_tolerance();
    assert(small::<i64>(1) == 1);
    assert(small::<i64>(0) == 0);
    lemma_i64_basis_mass_req(n, k, n);
    lemma_basis_mass::<i64>(n, k, n);
    let amps = basis_spec::<i64>(n, k);
    assert forall|i: int| 0 <= i < amps.len() implies amps[i].mag_square_req() && mass_spec(
        amps,
        i as nat,
    ).add_req(amps[i].mag_square_spec()) by {
        lemma_i64_basis_mass_req(n, k, (i + 1) as nat);
    }
}

/// Over the 64-bit integers a register built from the classical pattern
/// `k` collapses to `k`, and to nothing else, whatever the target.
pub proof fn lemma_i64_basis_collapses_to_itself(
    n: nat,
    k: int,
    target: i64,
    outcome: Option<int>,
)
    requires
        0 <= k < n,
    ensures
        collapse_spec(basis_spec::<i64>(n, k), reduced_spec(target), Some(k)),
        collapse_spec(basis_spec::<i64>(n, k), reduced_spec(target), outcome) ==> outcome == Some(
            k,
        ),
{
    lemma_i64_is_exact();
    assert(small::<i64>(1) == 1);
    assert(small::<i64>(0) == 0);
    assert(reduced_spec(target) == 0);
    lemma_basis_collapses_to_itself::<i64>(n, k, reduced_spec(target), outcome);
}

} // verus!
