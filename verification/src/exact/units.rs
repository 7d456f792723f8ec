//! Complex numbers with integer parts and a squared magnitude of at most
//! one: zero and the four units `1`, `-1`, `i` and `-i`. The elements of
//! every unitary matrix and every normalized state over the integers are
//! among them.
use crate::complex::Complex;
use vstd::prelude::*;
use vstd::std_specs::ops::{MulSpec, NegSpec};

verus! {

/// The squared magnitude of `z` as an integer.
pub open spec fn sq(z: Complex<i64>) -> int {
    z.re * z.re + z.im * z.im
}

/// Two numbers whose squared magnitudes sum to one: one of them is zero,
/// and the other is one of `1`, `-1`, `i` and `-i`.
pub proof fn lemma_unit_pair(x: Complex<i64>, y: Complex<i64>)
    by (nonlinear_arith)
    requires
        sq(x) + sq(y) == 1,
    ensures
        (sq(x) == 1 && y.re == 0 && y.im == 0) || (sq(y) == 1 && x.re == 0 && x.im == 0),
        -1 <= x.re <= 1,
        -1 <= x.im <= 1,
        -1 <= y.re <= 1,
        -1 <= y.im <= 1,
{
}

/// A number of squared magnitude one is one of `1`, `-1`, `i` and `-i`.
pub proof fn lemma_unit(u: Complex<i64>)
    by (nonlinear_arith)
    requires
        sq(u) == 1,
    ensures
        (u.re == 1 && u.im == 0) || (u.re == -1 && u.im == 0) || (u.re == 0 && u.im == 1) || (u.re
            == 0 && u.im == -1),
{
}

/// A number whose squared magnitude is zero is zero.
pub proof fn lemma_zero(z: Complex<i64>)
    by (nonlinear_arith)
    requires
        sq(z) == 0,
    ensures
        z.re == 0,
        z.im == 0,
{
}

/// A number that is zero or a unit has parts between minus one and one.
pub proof fn lemma_bounds(z: Complex<i64>)
    by (nonlinear_arith)
    requires
        sq(z) == 1 || (z.re == 0 && z.im == 0),
    ensures
        -1 <= z.re <= 1,
        -1 <= z.im <= 1,
{
}

/// The product of two integers between minus one and one.
pub proof fn lemma_small_product(x: int, y: int)
    by (nonlinear_arith)
    requires
        -1 <= x <= 1,
        -1 <= y <= 1,
    ensures
        x * y == (if x == 0 || y == 0 {
            0int
        } else if x == 1 {
            y
        } else {
            -y
        }),
{
}

/// A unit times a number with parts between minus one and one: the
/// product has the squared magnitude of the number.
pub proof fn lemma_unit_times(u: Complex<i64>, z: Complex<i64>)
    requires
        sq(u) == 1,
        -1 <= z.re <= 1,
        -1 <= z.im <= 1,
    ensures
        u.mul_req(z),
        sq(u.mul_spec(z)) == sq(z),
        -1 <= u.mul_spec(z).re <= 1,
        -1 <= u.mul_spec(z).im <= 1,
{
    lemma_unit(u);
    lemma_small_product(u.re as int, z.re as int);
    lemma_small_product(u.im as int, z.im as int);
    lemma_small_product(u.re as int, z.im as int);
    lemma_small_product(u.im as int, z.re as int);
    let p = u.mul_spec(z);
    lemma_small_product(z.re as int, z.re as int);
    lemma_small_product(z.im as int, z.im as int);
    lemma_small_product(p.re as int, p.re as int);
    lemma_small_product(p.im as int, p.im as int);
}

/// Zero times a number with parts between minus one and one is zero.
pub proof fn lemma_zero_times(u: Complex<i64>, z: Complex<i64>)
    requires
        u.re == 0,
        u.im == 0,
        -1 <= z.re <= 1,
        -1 <= z.im <= 1,
    ensures
        u.mul_req(z),
        u.mul_spec(z).re == 0,
        u.mul_spec(z).im == 0,
{
}

/// The real part of a number times its conjugate is its squared magnitude.
pub proof fn lemma_times_conj(z: Complex<i64>)
    requires
        z.im.neg_req(),
        z.mul_req(z.conj_spec()),
    ensures
        z.mul_spec(z.conj_spec()).re == sq(z),
{
    assert(z.im * (-z.im) == -(z.im * z.im)) by (nonlinear_arith);
    assert(z.mul_spec(z.conj_spec()).re == z.re * z.re - z.im * (-z.im));
}

/// The squared magnitude as the scalar type computes it, for parts between
/// minus one and one.
pub proof fn lemma_mag_square(z: Complex<i64>)
    requires
        -1 <= z.re <= 1,
        -1 <= z.im <= 1,
    ensures
        z.mag_square_req(),
        z.mag_square_spec() == sq(z),
        0 <= sq(z) <= 2,
{
    lemma_small_product(z.re as int, z.re as int);
    lemma_small_product(z.im as int, z.im as int);
}

} // verus!
