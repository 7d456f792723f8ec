//! The constants and comparisons of the library over the 64-bit integers.
use crate::random::{unit_req, UNIT_STEPS};
use crate::scalar::{
    approx_eq_req, approx_eq_spec, assembled_spec, digit, distinct_units, dyadic_req, dyadic_spec, exact_units,
    obeys_scalar_specs, small, thousand_req, thousand_spec, tolerance_req, tolerance_spec,
    two_pow_24_req, two_pow_24_spec, zero_is_neutral,
};
use vstd::prelude::*;
use vstd::std_specs::ops::{AddSpec, MulSpec};

verus! {

/// The 64-bit integers obey the specifications of their operators, zero
/// and one are exact and different in them, and adding zero changes
/// nothing.
pub proof fn lemma_i64_is_exact()
    ensures
        obeys_scalar_specs::<i64>(),
        exact_units::<i64>(),
        distinct_units::<i64>(),
        zero_is_neutral::<i64>(),
{
    assert(small::<i64>(0) == 0);
    assert(small::<i64>(1) == 1);
}

/// Over the 64-bit integers the tolerance can be computed and is zero.
pub proof fn lemma_i64_tolerance()
    ensures
        tolerance_req::<i64>(),
        tolerance_spec::<i64>() == 0,
{
    assert(small::<i64>(10) == 10);
    assert(thousand_req::<i64>());
    assert(thousand_spec::<i64>() == 1000);
    let thousand = thousand_spec::<i64>();
    assert(thousand.mul_spec(thousand) == 1000000);
    assert(1int / 1000000int == 0);
}

/// Over the 64-bit integers two numbers are equal within the tolerance if
/// and only if they are equal, as long as their difference can be
/// computed.
pub proof fn lemma_i64_approx_eq(a: i64, b: i64)
    requires
        i64::MIN < a - b <= i64::MAX,
    ensures
        approx_eq_req(a, b),
        approx_eq_spec(a, b) <==> a == b,
{
    lemma_i64_tolerance();
    assert(small::<i64>(0) == 0);
}

/// Over the 64-bit integers every numerator of 24 bits can be put over two
/// to the twenty-fourth, and the quotient is zero: the only integer of
/// `[0, 1)`.
pub proof fn lemma_i64_dyadic(numerator: u32)
    requires
        numerator < 0x100_0000,
    ensures
        dyadic_req::<i64>(numerator),
        dyadic_spec::<i64>(numerator) == 0,
{
    let base = small::<i64>(64);
    assert(base == 64);
    let d3 = small::<i64>(digit(numerator, 3));
    let d2 = small::<i64>(digit(numerator, 2));
    let d1 = small::<i64>(digit(numerator, 1));
    let d0 = small::<i64>(digit(numerator, 0));
    assert(0 <= d3 < 64 && 0 <= d2 < 64 && 0 <= d1 < 64 && 0 <= d0 < 64);
    let s3 = d3.mul_spec(base);
    assert(s3 == d3 * 64);
    let s2 = s3.add_spec(d2).mul_spec(base);
    assert(s2 == (d3 * 64 + d2) * 64);
    let s1 = s2.add_spec(d1).mul_spec(base);
    assert(s1 == ((d3 * 64 + d2) * 64 + d1) * 64);
    let assembled = assembled_spec::<i64>(numerator);
    assert(assembled == s1 + d0);
    assert(0 <= assembled < 0x100_0000);
    assert(two_pow_24_req::<i64>());
    assert(two_pow_24_spec::<i64>() == 0x100_0000) by {
        assert(base.mul_spec(base) == 4096);
        assert(base.mul_spec(base).mul_spec(base) == 262144);
    }
    assert((assembled as int) / 0x100_0000int == 0);
}

/// Over the 64-bit integers every variate can be computed.
pub proof fn lemma_i64_unit_req()
    ensures
        unit_req::<i64>(),
{
    assert forall|numerator: u32| numerator < UNIT_STEPS implies #[trigger] dyadic_req::<i64>(
        numerator,
    ) by {
        lemma_i64_dyadic(numerator);
    }
}

} // verus!
