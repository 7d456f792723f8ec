//! The numeric capability that amplitudes are built on.
//!
//! A scalar is any copyable type with the six arithmetic operators, an order
//! and an embedding of the small integers. The machine integers qualify, and
//! so does every floating-point type of the standard library; nothing else
//! has to be implemented. Constants that are not small integers are derived
//! from them with the operators, so that they exist in every scalar type.
use core::cmp::Ordering;
use core::ops::{Add, Div, Mul, Neg, Rem, Sub};
use vstd::prelude::*;
use vstd::std_specs::cmp::{PartialEqSpec, PartialOrdSpec};
use vstd::std_specs::convert::FromSpec;
use vstd::std_specs::ops::{AddSpec, DivSpec, MulSpec, NegSpec, RemSpec, SubSpec};

verus! {

/// The operations a type must offer to serve as the real and imaginary part
/// of an amplitude.
pub trait Scalar: Copy + Add<Output = Self> + Sub<Output = Self> + Mul<Output = Self> + Div<
    Output = Self,
> + Rem<Output = Self> + Neg<Output = Self> + PartialOrd + From<i8> {

}

impl<T> Scalar for T where
    T: Copy + Add<Output = T> + Sub<Output = T> + Mul<Output = T> + Div<Output = T> + Rem<
        Output = T,
    > + Neg<Output = T> + PartialOrd + From<i8>,
 {

}

/// Whether the embedding of the small integers into `T` is specified.
pub open spec fn obeys_embedding<T: Scalar>() -> bool {
    <T as FromSpec<i8>>::obeys_from_spec()
}

/// Whether every operation of `T` returns what its specification says.
///
/// This holds of the signed machine integers. Where it does not hold, the
/// library still runs, and its contracts say nothing.
pub open spec fn obeys_scalar_specs<T: Scalar>() -> bool {
    &&& T::obeys_add_spec()
    &&& T::obeys_sub_spec()
    &&& T::obeys_mul_spec()
    &&& T::obeys_div_spec()
    &&& T::obeys_rem_spec()
    &&& T::obeys_neg_spec()
    &&& T::obeys_eq_spec()
    &&& T::obeys_partial_cmp_spec()
    &&& obeys_embedding::<T>()
}

/// The scalar that stands for the small integer `k`.
pub open spec fn small<T: Scalar>(k: i8) -> T {
    T::from_spec(k)
}

/// `a < b` in the order of `T`.
pub open spec fn less<T: Scalar>(a: T, b: T) -> bool {
    a.partial_cmp_spec(&b) == Some(Ordering::Less)
}

/// `a > b` in the order of `T`.
pub open spec fn greater<T: Scalar>(a: T, b: T) -> bool {
    a.partial_cmp_spec(&b) == Some(Ordering::Greater)
}

/// `a <= b` in the order of `T`.
pub open spec fn at_most<T: Scalar>(a: T, b: T) -> bool {
    a.partial_cmp_spec(&b) matches Some(Ordering::Less | Ordering::Equal)
}

/// `a == b` as `T` compares.
pub open spec fn same<T: Scalar>(a: T, b: T) -> bool {
    a.eq_spec(&b)
}

/// Zero and one add and multiply in `T` as they do among the integers:
/// `0·0 = 0`, `1·1 = 1`, `0 + 0 = 0` and `0 + 1 = 1 + 0 = 1`.
pub open spec fn exact_units<T: Scalar>() -> bool {
    let zero = small::<T>(0);
    let one = small::<T>(1);
    &&& zero.mul_spec(zero) == zero
    &&& one.mul_spec(one) == one
    &&& zero.add_spec(zero) == zero
    &&& zero.add_spec(one) == one
    &&& one.add_spec(zero) == one
}

/// Adding what compares equal to zero changes nothing in `T`.
pub open spec fn zero_is_neutral<T: Scalar>() -> bool {
    forall|x: T, p: T| same(p, small::<T>(0)) ==> #[trigger] x.add_spec(p) == x
}

/// Zero and one compare in `T` as they do among the integers: zero equals
/// itself, and one does not equal zero.
pub open spec fn distinct_units<T: Scalar>() -> bool {
    same(small::<T>(0), small::<T>(0)) && !same(small::<T>(1), small::<T>(0))
}

/// The scalar zero.
pub fn zero<T: Scalar>() -> (r: T)
    requires
        obeys_scalar_specs::<T>(),
    ensures
        r == small::<T>(0),
{
    T::from(0i8)
}

/// The scalar one.
pub fn one<T: Scalar>() -> (r: T)
    requires
        obeys_scalar_specs::<T>(),
    ensures
        r == small::<T>(1),
{
    T::from(1i8)
}

/// Whether `T` can embed the byte `x`.
pub open spec fn from_u8_req<T: Scalar>(x: u8) -> bool {
    x > 127 ==> {
        &&& small::<T>(2).mul_req(small::<T>((x / 2) as i8))
        &&& small::<T>(2).mul_spec(small::<T>((x / 2) as i8)).add_req(small::<T>((x % 2) as i8))
    }
}

/// The scalar that stands for the byte `x`: the small integer `x` where
/// `x` is one, and twice its half plus its lowest bit where `x` is too
/// large to be one.
pub open spec fn from_u8_spec<T: Scalar>(x: u8) -> T {
    if x <= 127 {
        small::<T>(x as i8)
    } else {
        small::<T>(2).mul_spec(small::<T>((x / 2) as i8)).add_spec(small::<T>((x % 2) as i8))
    }
}

/// The scalar that stands for the byte `x`.
pub fn from_u8<T: Scalar>(x: u8) -> (r: T)
    requires
        obeys_scalar_specs::<T>(),
        from_u8_req::<T>(x),
    ensures
        r == from_u8_spec::<T>(x),
{
    if x <= 127 {
        T::from(x as i8)
    } else {
        T::from(2i8) * T::from((x / 2) as i8) + T::from((x % 2) as i8)
    }
}

/// Whether `T` can compute a thousand from ten.
pub open spec fn thousand_req<T: Scalar>() -> bool {
    let ten = small::<T>(10);
    ten.mul_req(ten) && ten.mul_spec(ten).mul_req(ten)
}

/// Ten times ten times ten.
pub open spec fn thousand_spec<T: Scalar>() -> T {
    let ten = small::<T>(10);
    ten.mul_spec(ten).mul_spec(ten)
}

/// Whether `T` can compute the tolerance.
pub open spec fn tolerance_req<T: Scalar>() -> bool {
    let thousand = thousand_spec::<T>();
    &&& thousand_req::<T>()
    &&& thousand.mul_req(thousand)
    &&& small::<T>(1).div_req(thousand.mul_spec(thousand))
}

/// One millionth: the distance within which two scalars count as equal.
///
/// In an integer type this is zero, and approximate equality is equality.
pub open spec fn tolerance_spec<T: Scalar>() -> T {
    let thousand = thousand_spec::<T>();
    small::<T>(1).div_spec(thousand.mul_spec(thousand))
}

/// The tolerance of approximate comparisons, one millionth.
pub fn tolerance<T: Scalar>() -> (r: T)
    requires
        obeys_scalar_specs::<T>(),
        tolerance_req::<T>(),
    ensures
        r == tolerance_spec::<T>(),
{
    let ten = T::from(10i8);
    let thousand = ten * ten * ten;
    T::from(1i8) / (thousand * thousand)
}

/// Whether `T` can negate `x` where the absolute value has to.
pub open spec fn abs_req<T: Scalar>(x: T) -> bool {
    less(x, small::<T>(0)) ==> x.neg_req()
}

/// The absolute value: `-x` where `x` is below zero, else `x`.
pub open spec fn abs_spec<T: Scalar>(x: T) -> T {
    if less(x, small::<T>(0)) {
        x.neg_spec()
    } else {
        x
    }
}

/// The absolute value of `x`.
pub fn abs<T: Scalar>(x: T) -> (r: T)
    requires
        obeys_scalar_specs::<T>(),
        abs_req(x),
    ensures
        r == abs_spec(x),
{
    if x < T::from(0i8) {
        x.neg()
    } else {
        x
    }
}

/// Whether `T` can compare `a` and `b` within the tolerance.
pub open spec fn approx_eq_req<T: Scalar>(a: T, b: T) -> bool {
    &&& tolerance_req::<T>()
    &&& a.sub_req(b)
    &&& abs_req(a.sub_spec(b))
}

/// `|a - b|` is at most the tolerance.
pub open spec fn approx_eq_spec<T: Scalar>(a: T, b: T) -> bool {
    at_most(abs_spec(a.sub_spec(b)), tolerance_spec::<T>())
}

/// Whether `a` and `b` differ by at most the tolerance.
pub fn approx_eq<T: Scalar>(a: T, b: T) -> (r: bool)
    requires
        obeys_scalar_specs::<T>(),
        approx_eq_req(a, b),
    ensures
        r == approx_eq_spec(a, b),
{
    abs(a - b) <= tolerance::<T>()
}

/// The six-bit digit of `numerator` at `place`, counted from the least
/// significant.
pub open spec fn digit(numerator: u32, place: nat) -> i8 {
    if place == 0 {
        (numerator % 64) as i8
    } else if place == 1 {
        ((numerator / 64) % 64) as i8
    } else if place == 2 {
        ((numerator / 4096) % 64) as i8
    } else {
        ((numerator / 262144) % 64) as i8
    }
}

/// `numerator` as a scalar, assembled from its four six-bit digits.
pub open spec fn assembled_spec<T: Scalar>(numerator: u32) -> T {
    let base = small::<T>(64);
    small::<T>(digit(numerator, 3)).mul_spec(base).add_spec(small::<T>(digit(numerator, 2))).mul_spec(
        base,
    ).add_spec(small::<T>(digit(numerator, 1))).mul_spec(base).add_spec(
        small::<T>(digit(numerator, 0)),
    )
}

/// Whether `T` can assemble `numerator` from its digits.
pub open spec fn assembled_req<T: Scalar>(numerator: u32) -> bool {
    let base = small::<T>(64);
    let d3 = small::<T>(digit(numerator, 3));
    let d2 = small::<T>(digit(numerator, 2));
    let d1 = small::<T>(digit(numerator, 1));
    let d0 = small::<T>(digit(numerator, 0));
    let s3 = d3.mul_spec(base);
    let s2 = s3.add_spec(d2).mul_spec(base);
    let s1 = s2.add_spec(d1).mul_spec(base);
    &&& d3.mul_req(base)
    &&& s3.add_req(d2)
    &&& s3.add_spec(d2).mul_req(base)
    &&& s2.add_req(d1)
    &&& s2.add_spec(d1).mul_req(base)
    &&& s1.add_req(d0)
}

/// Two to the twenty-fourth, as `64 * 64 * 64 * 64`.
pub open spec fn two_pow_24_spec<T: Scalar>() -> T {
    let base = small::<T>(64);
    base.mul_spec(base).mul_spec(base).mul_spec(base)
}

/// Whether `T` can compute two to the twenty-fourth.
pub open spec fn two_pow_24_req<T: Scalar>() -> bool {
    let base = small::<T>(64);
    &&& base.mul_req(base)
    &&& base.mul_spec(base).mul_req(base)
    &&& base.mul_spec(base).mul_spec(base).mul_req(base)
}

/// Whether `T` can compute `numerator / 2^24`.
pub open spec fn dyadic_req<T: Scalar>(numerator: u32) -> bool {
    &&& assembled_req::<T>(numerator)
    &&& two_pow_24_req::<T>()
    &&& assembled_spec::<T>(numerator).div_req(two_pow_24_spec::<T>())
}

/// `numerator / 2^24` in `T`.
pub open spec fn dyadic_spec<T: Scalar>(numerator: u32) -> T {
    assembled_spec::<T>(numerator).div_spec(two_pow_24_spec::<T>())
}

/// The scalar `numerator / 2^24`, for a numerator of at most 24 bits.
///
/// The numerator is assembled from six-bit digits, each a small integer, so
/// that in a binary floating-point type with 24 or more bits of precision
/// every step is exact.
pub fn dyadic<T: Scalar>(numerator: u32) -> (r: T)
    requires
        obeys_scalar_specs::<T>(),
        numerator < 0x100_0000,
        dyadic_req::<T>(numerator),
    ensures
        r == dyadic_spec::<T>(numerator),
{
    let base = T::from(64i8);
    let d3 = T::from((numerator / 262144) as i8);
    let d2 = T::from(((numerator / 4096) % 64) as i8);
    let d1 = T::from(((numerator / 64) % 64) as i8);
    let d0 = T::from((numerator % 64) as i8);
    let assembled = ((d3 * base + d2) * base + d1) * base + d0;
    assembled / (base * base * base * base)
}

/// The numerator over `2^24` of the single-precision value nearest to the
/// square root of one half.
pub const FRAC_1_SQRT_2_NUMERATOR: u32 = 11863283;

/// The square root of one half, to single precision.
pub fn frac_1_sqrt_2<T: Scalar>() -> (r: T)
    requires
        obeys_scalar_specs::<T>(),
        dyadic_req::<T>(FRAC_1_SQRT_2_NUMERATOR),
    ensures
        r == dyadic_spec::<T>(FRAC_1_SQRT_2_NUMERATOR),
{
    dyadic(FRAC_1_SQRT_2_NUMERATOR)
}

} // verus!
