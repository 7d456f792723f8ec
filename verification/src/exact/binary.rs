//! Binary gates over the 64-bit integers: the matrices of permutations,
//! CNOT and SWAP among them, and what every unitary matrix does to a
//! register of two qubits.
use crate::complex::Complex;
use crate::exact::registers::{lemma_mass_of_four, lemma_valid_of_four};
use crate::exact::scalars::lemma_i64_tolerance;
use crate::exact::units::{
    lemma_bounds, lemma_times_conj, lemma_unit_times, lemma_zero_times, sq,
};
use crate::gates::binary::gates::{cnot_matrix, swap_matrix};
use crate::gates::binary::{
    adjoint_spec, gram_spec, identity_at, lift_req, lift_spec, near_identity_at,
    near_identity_at_req, unitary_req, unitary_spec, BinaryGate,
};
use crate::matrix4::{
    col, dot4_req, dot4_spec, is_4x4, mul_vec_req, mul_vec_spec, product_req, product_spec,
};
use crate::qubit::basis_amplitudes;
use crate::registers::quantum::{mass_spec, tensor_req, tensor_spec, valid_req, valid_spec};
use crate::scalar::small;
use vstd::prelude::*;
use vstd::std_specs::ops::{MulSpec, NegSpec};

verus! {

/// Whether `p` maps the four indices `0..4` to each other one to one.
pub open spec fn is_permutation(p: Seq<int>) -> bool {
    &&& p.len() == 4
    &&& forall|i: int| 0 <= i < 4 ==> 0 <= #[trigger] p[i] < 4
    &&& forall|i: int, j: int| 0 <= i < 4 && 0 <= j < 4 && i != j ==> p[i] != p[j]
}

/// The 4x4 matrix of `p`: row `i` has its one in column `p[i]` and zeros
/// elsewhere, so that it moves the amplitude of state `p[i]` to state `i`.
pub open spec fn permutation_matrix(p: Seq<int>) -> Seq<Seq<u8>> {
    Seq::new(
        4,
        |i: int|
            Seq::new(
                4,
                |j: int|
                    if p[i] == j {
                        1u8
                    } else {
                        0u8
                    },
            ),
    )
}

/// The permutation that follows `p` by `q`: index `i` goes to `q[p[i]]`.
pub open spec fn followed_by(p: Seq<int>, q: Seq<int>) -> Seq<int> {
    Seq::new(4, |i: int| q[p[i]])
}

/// The four indices, each mapped to itself.
pub open spec fn identity_permutation() -> Seq<int> {
    seq![0int, 1int, 2int, 3int]
}

/// The permutation of CNOT, which exchanges `|10>` and `|11>`.
pub open spec fn cnot_permutation() -> Seq<int> {
    seq![0int, 1int, 3int, 2int]
}

/// The permutation of SWAP, which exchanges `|01>` and `|10>`.
pub open spec fn swap_permutation() -> Seq<int> {
    seq![0int, 2int, 1int, 3int]
}

/// The elements of a lifted permutation matrix are the real numbers zero
/// and one.
proof fn lemma_i64_lifted_permutation(p: Seq<int>, i: int, j: int)
    requires
        is_permutation(p),
        0 <= i < 4,
        0 <= j < 4,
    ensures
        lift_req::<i64>(permutation_matrix(p)),
        lift_spec::<i64>(permutation_matrix(p))[i][j] == (Complex::<i64> {
            re: if p[i] == j {
                1
            } else {
                0
            },
            im: 0,
        }),
{
    assert(small::<i64>(0) == 0);
    assert(small::<i64>(1) == 1);
    assert(permutation_matrix(p)[i][j] == (if p[i] == j {
        1u8
    } else {
        0u8
    }));
}

/// The product of two real numbers that are zero or one, the second as it
/// is or conjugated, is one where both are one and zero where they are not.
proof fn lemma_i64_bit_product(x: Complex<i64>, y: Complex<i64>)
    requires
        x.im == 0,
        y.im == 0,
        0 <= x.re <= 1,
        0 <= y.re <= 1,
    ensures
        y.im.neg_req(),
        x.mul_req(y),
        x.mul_req(y.conj_spec()),
        x.mul_spec(y) == x.mul_spec(y.conj_spec()),
        x.mul_spec(y) == (Complex::<i64> {
            re: if x.re == 1 && y.re == 1 {
                1
            } else {
                0
            },
            im: 0,
        }),
{
}

/// Over the 64-bit integers the matrix of a permutation is unitary.
pub proof fn lemma_i64_permutation_is_unitary(p: Seq<int>)
    requires
        is_permutation(p),
    ensures
        lift_req::<i64>(permutation_matrix(p)),
        unitary_req(lift_spec::<i64>(permutation_matrix(p))),
        unitary_spec(lift_spec::<i64>(permutation_matrix(p))),
{
    lemma_i64_tolerance();
    assert(small::<i64>(0) == 0);
    assert(small::<i64>(1) == 1);
    let l = lift_spec::<i64>(permutation_matrix(p));
    let a = adjoint_spec(l);
    let g = gram_spec(l);
    lemma_i64_lifted_permutation(p, 0, 0);
    assert forall|i: int, j: int| 0 <= i < 4 && 0 <= j < 4 implies (#[trigger] l[i][j]).im.neg_req() by {
        lemma_i64_lifted_permutation(p, i, j);
    }
    assert forall|i: int, j: int| 0 <= i < 4 && 0 <= j < 4 implies dot4_req(
        #[trigger] l[i],
        #[trigger] col(a, j),
    ) && dot4_spec(l[i], col(a, j)) == identity_at::<i64>(i, j) by {
        let c = col(a, j);
        assert(c[0] == l[j][0].conj_spec());
        assert(c[1] == l[j][1].conj_spec());
        assert(c[2] == l[j][2].conj_spec());
        assert(c[3] == l[j][3].conj_spec());
        lemma_i64_lifted_permutation(p, i, 0);
        lemma_i64_lifted_permutation(p, i, 1);
        lemma_i64_lifted_permutation(p, i, 2);
        lemma_i64_lifted_permutation(p, i, 3);
        lemma_i64_lifted_permutation(p, j, 0);
        lemma_i64_lifted_permutation(p, j, 1);
        lemma_i64_lifted_permutation(p, j, 2);
        lemma_i64_lifted_permutation(p, j, 3);
        lemma_i64_bit_product(l[i][0], l[j][0]);
        lemma_i64_bit_product(l[i][1], l[j][1]);
        lemma_i64_bit_product(l[i][2], l[j][2]);
        lemma_i64_bit_product(l[i][3], l[j][3]);
    }
    assert forall|i: int, j: int| 0 <= i < 4 && 0 <= j < 4 implies #[trigger] near_identity_at_req(
        g,
        i,
        j,
    ) && near_identity_at(g, i, j) by {
        assert(dot4_req(l[i], col(a, j)));
        assert(g[i][j] == identity_at::<i64>(i, j));
    }
}

/// Over the 64-bit integers the product of the matrices of two
/// permutations is the matrix of the first followed by the second.
pub proof fn lemma_i64_permutation_product(p: Seq<int>, q: Seq<int>)
    requires
        is_permutation(p),
        is_permutation(q),
    ensures
        is_permutation(followed_by(p, q)),
        product_req(
            lift_spec::<i64>(permutation_matrix(p)),
            lift_spec::<i64>(permutation_matrix(q)),
        ),
        product_spec(
            lift_spec::<i64>(permutation_matrix(p)),
            lift_spec::<i64>(permutation_matrix(q)),
        ) == lift_spec::<i64>(permutation_matrix(followed_by(p, q))),
{
    assert(small::<i64>(0) == 0);
    assert(small::<i64>(1) == 1);
    let a = lift_spec::<i64>(permutation_matrix(p));
    let b = lift_spec::<i64>(permutation_matrix(q));
    let r = followed_by(p, q);
    let c = lift_spec::<i64>(permutation_matrix(r));
    assert(is_permutation(r)) by {
        assert forall|i: int, j: int| 0 <= i < 4 && 0 <= j < 4 && i != j implies r[i] != r[j] by {
            assert(p[i] != p[j]);
        }
    }
    assert forall|i: int, j: int| 0 <= i < 4 && 0 <= j < 4 implies dot4_req(
        #[trigger] a[i],
        #[trigger] col(b, j),
    ) && dot4_spec(a[i], col(b, j)) == c[i][j] by {
        lemma_i64_lifted_permutation(p, i, 0);
        lemma_i64_lifted_permutation(p, i, 1);
        lemma_i64_lifted_permutation(p, i, 2);
        lemma_i64_lifted_permutation(p, i, 3);
        lemma_i64_lifted_permutation(q, 0, j);
        lemma_i64_lifted_permutation(q, 1, j);
        lemma_i64_lifted_permutation(q, 2, j);
        lemma_i64_lifted_permutation(q, 3, j);
        lemma_i64_lifted_permutation(r, i, j);
        lemma_i64_bit_product(a[i][0], b[0][j]);
        lemma_i64_bit_product(a[i][1], b[1][j]);
        lemma_i64_bit_product(a[i][2], b[2][j]);
        lemma_i64_bit_product(a[i][3], b[3][j]);
    }
    assert(product_spec(a, b) =~~= c);
}

/// The matrices of CNOT and of SWAP are those of their permutations.
pub proof fn lemma_cnot_and_swap_are_permutations()
    ensures
        is_permutation(cnot_permutation()),
        is_permutation(swap_permutation()),
        is_permutation(identity_permutation()),
        cnot_matrix() == permutation_matrix(cnot_permutation()),
        swap_matrix() == permutation_matrix(swap_permutation()),
{
    assert(cnot_matrix() =~~= permutation_matrix(cnot_permutation()));
    assert(swap_matrix() =~~= permutation_matrix(swap_permutation()));
}

/// Over the 64-bit integers the matrices of CNOT and of SWAP are unitary:
/// both gates exist.
pub proof fn lemma_i64_cnot_and_swap()
    ensures
        lift_req::<i64>(cnot_matrix()),
        unitary_req(lift_spec::<i64>(cnot_matrix())),
        unitary_spec(lift_spec::<i64>(cnot_matrix())),
        lift_req::<i64>(swap_matrix()),
        unitary_req(lift_spec::<i64>(swap_matrix())),
        unitary_spec(lift_spec::<i64>(swap_matrix())),
{
    lemma_cnot_and_swap_are_permutations();
    lemma_i64_permutation_is_unitary(cnot_permutation());
    lemma_i64_permutation_is_unitary(swap_permutation());
}

/// Over the 64-bit integers CNOT and SWAP are their own inverses: each
/// times itself is the identity.
pub proof fn lemma_i64_involutions()
    ensures
        product_spec(lift_spec::<i64>(cnot_matrix()), lift_spec::<i64>(cnot_matrix()))
            == lift_spec::<i64>(permutation_matrix(identity_permutation())),
        product_spec(lift_spec::<i64>(swap_matrix()), lift_spec::<i64>(swap_matrix()))
            == lift_spec::<i64>(permutation_matrix(identity_permutation())),
{
    lemma_cnot_and_swap_are_permutations();
    lemma_i64_permutation_product(cnot_permutation(), cnot_permutation());
    lemma_i64_permutation_product(swap_permutation(), swap_permutation());
    assert(followed_by(cnot_permutation(), cnot_permutation()) =~= identity_permutation());
    assert(followed_by(swap_permutation(), swap_permutation()) =~= identity_permutation());
}

/// Over the 64-bit integers three CNOT gates, the middle one with its
/// wires exchanged, make a SWAP, and so do three with the outer ones
/// exchanged.
pub proof fn lemma_i64_three_cnots_swap()
    ensures
        ({
            let c = lift_spec::<i64>(cnot_matrix());
            let s = lift_spec::<i64>(swap_matrix());
            let mirrored = BinaryGate::<i64>::swap_spec(c);
            &&& product_spec(product_spec(c, mirrored), c) == s
            &&& product_spec(product_spec(mirrored, c), mirrored) == s
        }),
{
    lemma_cnot_and_swap_are_permutations();
    let cp = cnot_permutation();
    let sp = swap_permutation();
    let c = lift_spec::<i64>(cnot_matrix());
    let s = lift_spec::<i64>(swap_matrix());
    lemma_i64_permutation_product(sp, cp);
    let half = followed_by(sp, cp);
    lemma_i64_permutation_product(half, sp);
    let mp = followed_by(half, sp);
    let mirrored = BinaryGate::<i64>::swap_spec(c);
    assert(mirrored == lift_spec::<i64>(permutation_matrix(mp)));
    lemma_i64_permutation_product(cp, mp);
    lemma_i64_permutation_product(followed_by(cp, mp), cp);
    assert(followed_by(followed_by(cp, mp), cp) =~= sp);
    lemma_i64_permutation_product(mp, cp);
    lemma_i64_permutation_product(followed_by(mp, cp), mp);
    assert(followed_by(followed_by(mp, cp), mp) =~= sp);
}

/// Over the 64-bit integers CNOT leaves the control as it is and adds it to
/// the target modulo two, for both values of each.
pub proof fn lemma_i64_cnot_truth_table(control: bool, target: bool)
    ensures
        tensor_req(basis_amplitudes::<i64>(control), basis_amplitudes::<i64>(target)),
        mul_vec_req(
            lift_spec::<i64>(cnot_matrix()),
            tensor_spec(basis_amplitudes::<i64>(control), basis_amplitudes::<i64>(target)),
        ),
        mul_vec_spec(
            lift_spec::<i64>(cnot_matrix()),
            tensor_spec(basis_amplitudes::<i64>(control), basis_amplitudes::<i64>(target)),
        ) == tensor_spec(
            basis_amplitudes::<i64>(control),
            basis_amplitudes::<i64>(target != control),
        ),
{
    assert(small::<i64>(0) == 0);
    assert(small::<i64>(1) == 1);
    lemma_cnot_and_swap_are_permutations();
    let m = lift_spec::<i64>(cnot_matrix());
    let v = tensor_spec(basis_amplitudes::<i64>(control), basis_amplitudes::<i64>(target));
    let w = tensor_spec(
        basis_amplitudes::<i64>(control),
        basis_amplitudes::<i64>(target != control),
    );
    let c = basis_amplitudes::<i64>(control);
    let t = basis_amplitudes::<i64>(target);
    let u = basis_amplitudes::<i64>(target != control);
    lemma_i64_bit_product(c.0, t.0);
    lemma_i64_bit_product(c.0, t.1);
    lemma_i64_bit_product(c.1, t.0);
    lemma_i64_bit_product(c.1, t.1);
    lemma_i64_bit_product(c.0, u.0);
    lemma_i64_bit_product(c.0, u.1);
    lemma_i64_bit_product(c.1, u.0);
    lemma_i64_bit_product(c.1, u.1);
    assert forall|i: int| 0 <= i < 4 implies dot4_req(#[trigger] m[i], v) && dot4_spec(m[i], v)
        == w[i] by {
        lemma_i64_lifted_permutation(cnot_permutation(), i, 0);
        lemma_i64_lifted_permutation(cnot_permutation(), i, 1);
        lemma_i64_lifted_permutation(cnot_permutation(), i, 2);
        lemma_i64_lifted_permutation(cnot_permutation(), i, 3);
        lemma_i64_bit_product(m[i][0], v[0]);
        lemma_i64_bit_product(m[i][1], v[1]);
        lemma_i64_bit_product(m[i][2], v[2]);
        lemma_i64_bit_product(m[i][3], v[3]);
    }
    assert(mul_vec_spec(m, v) =~= w);
}

/// Element `k` of `row` has squared magnitude one, and the other three
/// are zero.
pub open spec fn unit_at(row: Seq<Complex<i64>>, k: int) -> bool {
    &&& row.len() == 4
    &&& 0 <= k < 4
    &&& sq(row[k]) == 1
    &&& forall|j: int| 0 <= j < 4 && j != k ==> (#[trigger] row[j]).re == 0 && row[j].im == 0
}

/// Eight integers whose squares sum to one are zero but for one.
proof fn lemma_eight_squares(a: int, b: int, c: int, d: int, e: int, f: int, g: int, h: int)
    by (nonlinear_arith)
    requires
        a * a + b * b + (c * c + d * d) + (e * e + f * f) + (g * g + h * h) == 1,
    ensures
        (a * a + b * b == 1 && c == 0 && d == 0 && e == 0 && f == 0 && g == 0 && h == 0) || (c * c
            + d * d == 1 && a == 0 && b == 0 && e == 0 && f == 0 && g == 0 && h == 0) || (e * e + f
            * f == 1 && a == 0 && b == 0 && c == 0 && d == 0 && g == 0 && h == 0) || (g * g + h * h
            == 1 && a == 0 && b == 0 && c == 0 && d == 0 && e == 0 && f == 0),
        -1 <= a <= 1,
        -1 <= b <= 1,
        -1 <= c <= 1,
        -1 <= d <= 1,
        -1 <= e <= 1,
        -1 <= f <= 1,
        -1 <= g <= 1,
        -1 <= h <= 1,
{
}

/// Four numbers whose squared magnitudes sum to one: one of them is a
/// unit and the others are zero.
proof fn lemma_unit_row(row: Seq<Complex<i64>>)
    requires
        row.len() == 4,
        sq(row[0]) + sq(row[1]) + sq(row[2]) + sq(row[3]) == 1,
    ensures
        unit_at(row, 0) || unit_at(row, 1) || unit_at(row, 2) || unit_at(row, 3),
        forall|j: int| 0 <= j < 4 ==> -1 <= (#[trigger] row[j]).re <= 1 && -1 <= row[j].im <= 1,
{
    lemma_eight_squares(
        row[0].re as int,
        row[0].im as int,
        row[1].re as int,
        row[1].im as int,
        row[2].re as int,
        row[2].im as int,
        row[3].re as int,
        row[3].im as int,
    );
}

/// The conjugates of the elements of `row`.
pub open spec fn conj_row(row: Seq<Complex<i64>>) -> Seq<Complex<i64>> {
    seq![row[0].conj_spec(), row[1].conj_spec(), row[2].conj_spec(), row[3].conj_spec()]
}

/// The squared magnitudes of a row of a unitary matrix sum to one, and
/// two different rows are orthogonal.
proof fn lemma_unitary_rows(m: Seq<Seq<Complex<i64>>>, i: int, j: int)
    requires
        is_4x4(m),
        unitary_req(m),
        unitary_spec(m),
        0 <= i < 4,
        0 <= j < 4,
    ensures
        dot4_req(m[i], conj_row(m[j])),
        i == j ==> sq(m[i][0]) + sq(m[i][1]) + sq(m[i][2]) + sq(m[i][3]) == 1,
        i != j ==> dot4_spec(m[i], conj_row(m[j])) == Complex::<i64>::zero_spec(),
{
    lemma_i64_tolerance();
    assert(small::<i64>(0) == 0);
    assert(small::<i64>(1) == 1);
    let a = adjoint_spec(m);
    let g = gram_spec(m);
    assert(col(a, j) =~= conj_row(m[j]));
    assert(dot4_req(m[i], col(a, j)));
    assert(near_identity_at_req(g, i, j));
    assert(near_identity_at(g, i, j));
    assert(g[i][j] == dot4_spec(m[i], conj_row(m[j])));
    assert(g[i][j] == identity_at::<i64>(i, j));
    if i == j {
        assert(m[i][0].im.neg_req() && m[i][1].im.neg_req() && m[i][2].im.neg_req()
            && m[i][3].im.neg_req());
        lemma_times_conj(m[i][0]);
        lemma_times_conj(m[i][1]);
        lemma_times_conj(m[i][2]);
        lemma_times_conj(m[i][3]);
    }
}

/// A row with its unit at `k` times a vector with parts between minus one
/// and one: the product has the squared magnitude of element `k`.
proof fn lemma_row_times(row: Seq<Complex<i64>>, v: Seq<Complex<i64>>, k: int)
    requires
        unit_at(row, k),
        v.len() == 4,
        forall|j: int| 0 <= j < 4 ==> -1 <= (#[trigger] v[j]).re <= 1 && -1 <= v[j].im <= 1,
    ensures
        dot4_req(row, v),
        sq(dot4_spec(row, v)) == sq(v[k]),
        -1 <= dot4_spec(row, v).re <= 1,
        -1 <= dot4_spec(row, v).im <= 1,
        dot4_spec(row, v) == row[k].mul_spec(v[k]),
{
    assert(-1 <= v[0].re <= 1 && -1 <= v[0].im <= 1);
    assert(-1 <= v[1].re <= 1 && -1 <= v[1].im <= 1);
    assert(-1 <= v[2].re <= 1 && -1 <= v[2].im <= 1);
    assert(-1 <= v[3].re <= 1 && -1 <= v[3].im <= 1);
    if k == 0 {
        lemma_unit_times(row[0], v[0]);
    } else {
        lemma_zero_times(row[0], v[0]);
    }
    if k == 1 {
        lemma_unit_times(row[1], v[1]);
    } else {
        lemma_zero_times(row[1], v[1]);
    }
    if k == 2 {
        lemma_unit_times(row[2], v[2]);
    } else {
        lemma_zero_times(row[2], v[2]);
    }
    if k == 3 {
        lemma_unit_times(row[3], v[3]);
    } else {
        lemma_zero_times(row[3], v[3]);
    }
}

/// Two orthogonal rows do not have their units in the same column.
proof fn lemma_units_differ(r: Seq<Complex<i64>>, s: Seq<Complex<i64>>, k: int, l: int)
    requires
        unit_at(r, k),
        unit_at(s, l),
        dot4_req(r, conj_row(s)),
        dot4_spec(r, conj_row(s)) == Complex::<i64>::zero_spec(),
    ensures
        k != l,
{
    assert(small::<i64>(0) == 0);
    let c = conj_row(s);
    assert forall|j: int| 0 <= j < 4 implies -1 <= (#[trigger] c[j]).re <= 1 && -1 <= c[j].im
        <= 1 && sq(c[j]) == sq(s[j]) by {
        assert(c[j] == s[j].conj_spec());
        assert((-s[j].im) * (-s[j].im) == s[j].im * s[j].im) by (nonlinear_arith);
        lemma_bounds(s[j]);
    }
    lemma_row_times(r, c, k);
}

/// Row `i` of a unitary matrix over the integers has one unit and three
/// zeros.
proof fn lemma_unit_of_row(m: Seq<Seq<Complex<i64>>>, i: int) -> (k: int)
    requires
        is_4x4(m),
        unitary_req(m),
        unitary_spec(m),
        0 <= i < 4,
    ensures
        unit_at(m[i], k),
{
    lemma_unitary_rows(m, i, i);
    lemma_unit_row(m[i]);
    choose|k: int| unit_at(m[i], k)
}

/// Two different rows of a unitary matrix over the integers have their
/// units in different columns.
proof fn lemma_units_of_rows_differ(m: Seq<Seq<Complex<i64>>>, i: int, j: int, k: int, l: int)
    requires
        is_4x4(m),
        unitary_req(m),
        unitary_spec(m),
        0 <= i < 4,
        0 <= j < 4,
        i != j,
        unit_at(m[i], k),
        unit_at(m[j], l),
    ensures
        k != l,
{
    lemma_unitary_rows(m, i, j);
    lemma_units_differ(m[i], m[j], k, l);
}

/// Every row of a unitary matrix over the integers has one unit and three
/// zeros, and no two rows have their unit in the same column.
proof fn lemma_unit_columns(m: Seq<Seq<Complex<i64>>>) -> (p: Seq<int>)
    requires
        is_4x4(m),
        unitary_req(m),
        unitary_spec(m),
    ensures
        is_permutation(p),
        forall|i: int| 0 <= i < 4 ==> unit_at(#[trigger] m[i], p[i]),
{
    let k0 = lemma_unit_of_row(m, 0);
    let k1 = lemma_unit_of_row(m, 1);
    let k2 = lemma_unit_of_row(m, 2);
    let k3 = lemma_unit_of_row(m, 3);
    lemma_units_of_rows_differ(m, 0, 1, k0, k1);
    lemma_units_of_rows_differ(m, 0, 2, k0, k2);
    lemma_units_of_rows_differ(m, 0, 3, k0, k3);
    lemma_units_of_rows_differ(m, 1, 2, k1, k2);
    lemma_units_of_rows_differ(m, 1, 3, k1, k3);
    lemma_units_of_rows_differ(m, 2, 3, k2, k3);
    let p = seq![k0, k1, k2, k3];
    assert(p[0] == k0 && p[1] == k1 && p[2] == k2 && p[3] == k3);
    p
}

/// The sum of four numbers does not depend on their order.
proof fn lemma_permuted_sum(s: Seq<int>, p: Seq<int>)
    requires
        s.len() == 4,
        is_permutation(p),
    ensures
        s[p[0]] + s[p[1]] + s[p[2]] + s[p[3]] == s[0] + s[1] + s[2] + s[3],
{
    assert(0 <= p[0] < 4 && 0 <= p[1] < 4 && 0 <= p[2] < 4 && 0 <= p[3] < 4);
    assert(p[0] != p[1] && p[0] != p[2] && p[0] != p[3] && p[1] != p[2] && p[1] != p[3] && p[2]
        != p[3]);
}

/// Over the 64-bit integers a unitary 4x4 matrix maps normalized
/// amplitudes to normalized amplitudes.
pub proof fn lemma_i64_binary_gate_preserves_norm(m: Seq<Seq<Complex<i64>>>, v: Seq<Complex<i64>>)
    requires
        is_4x4(m),
        unitary_req(m),
        unitary_spec(m),
        v.len() == 4,
        valid_req(v),
        valid_spec(v),
    ensures
        mul_vec_req(m, v),
        valid_req(mul_vec_spec(m, v)),
        valid_spec(mul_vec_spec(m, v)),
{
    lemma_i64_tolerance();
    assert(small::<i64>(0) == 0);
    assert(small::<i64>(1) == 1);
    lemma_valid_of_four(v);
    lemma_unit_row(v);
    let p = lemma_unit_columns(m);
    let w = mul_vec_spec(m, v);
    assert forall|i: int| 0 <= i < 4 implies dot4_req(#[trigger] m[i], v) && sq(w[i]) == sq(
        v[p[i]],
    ) && -1 <= w[i].re <= 1 && -1 <= w[i].im <= 1 by {
        lemma_row_times(m[i], v, p[i]);
    }
    lemma_mass_of_four(w);
    let s = seq![sq(v[0]), sq(v[1]), sq(v[2]), sq(v[3])];
    lemma_permuted_sum(s, p);
    assert(sq(w[0]) == s[p[0]] && sq(w[1]) == s[p[1]] && sq(w[2]) == s[p[2]] && sq(w[3])
        == s[p[3]]);
    assert(mass_spec(w, 4) == 1);
}

} // verus!
