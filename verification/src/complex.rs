//! Complex numbers over a scalar.
use crate::scalar::{approx_eq, approx_eq_req, approx_eq_spec, obeys_scalar_specs, same, small, Scalar};
use core::ops::{Add, Div, Mul, Neg, Sub};
use vstd::prelude::*;
use vstd::std_specs::cmp::{PartialEqSpec};
use vstd::std_specs::ops::{AddSpec, DivSpec, MulSpec, NegSpec, SubSpec};

verus! {

/// A complex number `re + im·i`.
#[derive(Debug, Clone, Copy)]
pub struct Complex<T> {
    pub re: T,
    pub im: T,
}

impl<T: Scalar> Complex<T> {
    /// The complex number with the given real and imaginary part.
    pub fn new(re: T, im: T) -> (r: Self)
        ensures
            r == (Complex { re, im }),
    {
        Complex { re, im }
    }

    /// Whether `T` can scale the cosine and the sine by `r`.
    pub open spec fn mod_arg_req(r: T, cos_theta: T, sin_theta: T) -> bool {
        r.mul_req(cos_theta) && r.mul_req(sin_theta)
    }

    /// `r·cos θ + r·sin θ·i`.
    pub open spec fn mod_arg_spec(r: T, cos_theta: T, sin_theta: T) -> Self {
        Complex { re: r.mul_spec(cos_theta), im: r.mul_spec(sin_theta) }
    }

    /// The complex number with modulus `r` and argument `θ`, from the
    /// cosine and the sine of `θ`.
    pub fn mod_arg(r: T, cos_theta: T, sin_theta: T) -> (c: Self)
        requires
            obeys_scalar_specs::<T>(),
            Self::mod_arg_req(r, cos_theta, sin_theta),
        ensures
            c == Self::mod_arg_spec(r, cos_theta, sin_theta),
    {
        Complex { re: r * cos_theta, im: r * sin_theta }
    }

    /// The complex number `e^ix`, from the cosine and the sine of `x`: the
    /// one with modulus one and argument `x`.
    pub fn exp_ix(cos_x: T, sin_x: T) -> (c: Self)
        requires
            obeys_scalar_specs::<T>(),
            Self::mod_arg_req(small::<T>(1), cos_x, sin_x),
        ensures
            c == Self::mod_arg_spec(small::<T>(1), cos_x, sin_x),
    {
        Self::mod_arg(T::from(1i8), cos_x, sin_x)
    }

    /// The complex number `re + 0i`.
    pub open spec fn from_re_spec(re: T) -> Self {
        Complex { re, im: small::<T>(0) }
    }

    /// The complex number with a real part and no imaginary part.
    pub fn from_re(re: T) -> (r: Self)
        requires
            obeys_scalar_specs::<T>(),
        ensures
            r == Self::from_re_spec(re),
    {
        Complex { re, im: T::from(0i8) }
    }

    /// `0 + 0i`.
    pub open spec fn zero_spec() -> Self {
        Complex { re: small::<T>(0), im: small::<T>(0) }
    }

    /// `1 + 0i`.
    pub open spec fn one_spec() -> Self {
        Complex { re: small::<T>(1), im: small::<T>(0) }
    }

    /// `0 + 1i`.
    pub open spec fn i_spec() -> Self {
        Complex { re: small::<T>(0), im: small::<T>(1) }
    }

    /// The complex number `0 + 0i`.
    pub fn zero() -> (r: Self)
        requires
            obeys_scalar_specs::<T>(),
        ensures
            r == Self::zero_spec(),
    {
        Complex { re: T::from(0i8), im: T::from(0i8) }
    }

    /// The complex number `1 + 0i`.
    pub fn one() -> (r: Self)
        requires
            obeys_scalar_specs::<T>(),
        ensures
            r == Self::one_spec(),
    {
        Complex { re: T::from(1i8), im: T::from(0i8) }
    }

    /// The imaginary unit.
    pub fn i() -> (r: Self)
        requires
            obeys_scalar_specs::<T>(),
        ensures
            r == Self::i_spec(),
    {
        Complex { re: T::from(0i8), im: T::from(1i8) }
    }

    /// Whether `T` can compute `re·re + im·im`.
    pub open spec fn mag_square_req(self) -> bool {
        &&& self.re.mul_req(self.re)
        &&& self.im.mul_req(self.im)
        &&& self.re.mul_spec(self.re).add_req(self.im.mul_spec(self.im))
    }

    /// `re·re + im·im`.
    pub open spec fn mag_square_spec(self) -> T {
        self.re.mul_spec(self.re).add_spec(self.im.mul_spec(self.im))
    }

    /// The squared magnitude: the probability that belongs to an amplitude.
    pub fn mag_square(self) -> (r: T)
        requires
            obeys_scalar_specs::<T>(),
            self.mag_square_req(),
        ensures
            r == self.mag_square_spec(),
    {
        self.re * self.re + self.im * self.im
    }

    /// `re - im·i`.
    pub open spec fn conj_spec(self) -> Self {
        Complex { re: self.re, im: self.im.neg_spec() }
    }

    /// The complex conjugate.
    pub fn conj(self) -> (r: Self)
        requires
            obeys_scalar_specs::<T>(),
            self.im.neg_req(),
        ensures
            r == self.conj_spec(),
    {
        Complex { re: self.re, im: self.im.neg() }
    }

    /// Whether this is `0 + 0i`, as `T` compares.
    pub fn is_zero(&self) -> (r: bool)
        requires
            obeys_scalar_specs::<T>(),
        ensures
            r == (same(self.re, small::<T>(0)) && same(self.im, small::<T>(0))),
    {
        self.re == T::from(0i8) && self.im == T::from(0i8)
    }

    /// Whether this is `1 + 0i`, as `T` compares.
    pub fn is_one(&self) -> (r: bool)
        requires
            obeys_scalar_specs::<T>(),
        ensures
            r == (same(self.re, small::<T>(1)) && same(self.im, small::<T>(0))),
    {
        self.re == T::from(1i8) && self.im == T::from(0i8)
    }

    /// Whether `T` can compare both parts within the tolerance.
    pub open spec fn approx_eq_req(self, other: Self) -> bool {
        approx_eq_req(self.re, other.re) && approx_eq_req(self.im, other.im)
    }

    /// Both parts differ by at most the tolerance.
    pub open spec fn approx_eq_spec(self, other: Self) -> bool {
        approx_eq_spec(self.re, other.re) && approx_eq_spec(self.im, other.im)
    }

    /// Whether the real parts and the imaginary parts each differ by at most
    /// the tolerance.
    pub fn approx_eq(self, other: Self) -> (r: bool)
        requires
            obeys_scalar_specs::<T>(),
            self.approx_eq_req(other),
        ensures
            r == self.approx_eq_spec(other),
    {
        approx_eq(self.re, other.re) && approx_eq(self.im, other.im)
    }
}

impl<T: Scalar> vstd::std_specs::cmp::PartialEqSpecImpl for Complex<T> {
    open spec fn obeys_eq_spec() -> bool {
        T::obeys_eq_spec()
    }

    open spec fn eq_spec(&self, other: &Self) -> bool {
        self.re.eq_spec(&other.re) && self.im.eq_spec(&other.im)
    }
}

impl<T: Scalar> PartialEq for Complex<T> {
    fn eq(&self, other: &Self) -> (r: bool) {
        self.re == other.re && self.im == other.im
    }
}

impl<T: Scalar> vstd::std_specs::convert::FromSpecImpl<T> for Complex<T> {
    open spec fn obeys_from_spec() -> bool {
        obeys_scalar_specs::<T>()
    }

    open spec fn from_spec(num: T) -> Self {
        Complex { re: num, im: small::<T>(0) }
    }
}

impl<T: Scalar> From<T> for Complex<T> {
    fn from(num: T) -> (r: Self) {
        Complex { re: num, im: T::from(0i8) }
    }
}

impl<T: Scalar> vstd::std_specs::ops::AddSpecImpl for Complex<T> {
    open spec fn obeys_add_spec() -> bool {
        obeys_scalar_specs::<T>()
    }

    open spec fn add_req(self, other: Self) -> bool {
        self.re.add_req(other.re) && self.im.add_req(other.im)
    }

    open spec fn add_spec(self, other: Self) -> Self {
        Complex { re: self.re.add_spec(other.re), im: self.im.add_spec(other.im) }
    }
}

impl<T: Scalar> Add for Complex<T> {
    type Output = Complex<T>;

    fn add(self, other: Self) -> (r: Self) {
        Complex { re: self.re + other.re, im: self.im + other.im }
    }
}

impl<T: Scalar> vstd::std_specs::ops::SubSpecImpl for Complex<T> {
    open spec fn obeys_sub_spec() -> bool {
        obeys_scalar_specs::<T>()
    }

    open spec fn sub_req(self, other: Self) -> bool {
        self.re.sub_req(other.re) && self.im.sub_req(other.im)
    }

    open spec fn sub_spec(self, other: Self) -> Self {
        Complex { re: self.re.sub_spec(other.re), im: self.im.sub_spec(other.im) }
    }
}

impl<T: Scalar> Sub for Complex<T> {
    type Output = Complex<T>;

    fn sub(self, other: Self) -> (r: Self) {
        Complex { re: self.re - other.re, im: self.im - other.im }
    }
}

impl<T: Scalar> vstd::std_specs::ops::NegSpecImpl for Complex<T> {
    open spec fn obeys_neg_spec() -> bool {
        obeys_scalar_specs::<T>()
    }

    open spec fn neg_req(self) -> bool {
        self.re.neg_req() && self.im.neg_req()
    }

    open spec fn neg_spec(self) -> Self {
        Complex { re: self.re.neg_spec(), im: self.im.neg_spec() }
    }
}

impl<T: Scalar> Neg for Complex<T> {
    type Output = Complex<T>;

    fn neg(self) -> (r: Self) {
        Complex { re: self.re.neg(), im: self.im.neg() }
    }
}

impl<T: Scalar> vstd::std_specs::ops::MulSpecImpl for Complex<T> {
    open spec fn obeys_mul_spec() -> bool {
        obeys_scalar_specs::<T>()
    }

    /// The scalar operations obey their specifications, and `T` can compute
    /// the four products, their difference and their sum.
    open spec fn mul_req(self, other: Self) -> bool {
        &&& obeys_scalar_specs::<T>()
        &&& self.re.mul_req(other.re)
        &&& self.im.mul_req(other.im)
        &&& self.re.mul_req(other.im)
        &&& self.im.mul_req(other.re)
        &&& self.re.mul_spec(other.re).sub_req(self.im.mul_spec(other.im))
        &&& self.re.mul_spec(other.im).add_req(self.im.mul_spec(other.re))
    }

    /// `(a + bi)(c + di) = (ac - bd) + (ad + bc)i`.
    open spec fn mul_spec(self, other: Self) -> Self {
        Complex {
            re: self.re.mul_spec(other.re).sub_spec(self.im.mul_spec(other.im)),
            im: self.re.mul_spec(other.im).add_spec(self.im.mul_spec(other.re)),
        }
    }
}

impl<T: Scalar> Mul for Complex<T> {
    type Output = Complex<T>;

    fn mul(self, other: Self) -> (r: Self) {
        Complex {
            re: self.re * other.re - self.im * other.im,
            im: self.re * other.im + self.im * other.re,
        }
    }
}

impl<T: Scalar> vstd::std_specs::ops::MulSpecImpl<T> for Complex<T> {
    open spec fn obeys_mul_spec() -> bool {
        obeys_scalar_specs::<T>()
    }

    open spec fn mul_req(self, other: T) -> bool {
        self.re.mul_req(other) && self.im.mul_req(other)
    }

    /// Both parts times the scalar.
    open spec fn mul_spec(self, other: T) -> Self {
        Complex { re: self.re.mul_spec(other), im: self.im.mul_spec(other) }
    }
}

impl<T: Scalar> Mul<T> for Complex<T> {
    type Output = Complex<T>;

    fn mul(self, other: T) -> (r: Self) {
        Complex { re: self.re * other, im: self.im * other }
    }
}

/// The squared magnitude of the divisor, `c·c + d·d`.
pub open spec fn div_denominator<T: Scalar>(divisor: Complex<T>) -> T {
    divisor.mag_square_spec()
}

impl<T: Scalar> vstd::std_specs::ops::DivSpecImpl for Complex<T> {
    open spec fn obeys_div_spec() -> bool {
        obeys_scalar_specs::<T>()
    }

    /// The scalar operations obey their specifications, and `T` can compute
    /// the denominator, both numerators and both quotients. In an integer
    /// type this leaves out the divisor zero.
    open spec fn div_req(self, other: Self) -> bool {
        let denom = div_denominator(other);
        &&& obeys_scalar_specs::<T>()
        &&& other.mag_square_req()
        &&& self.re.mul_req(other.re)
        &&& self.im.mul_req(other.im)
        &&& self.re.mul_spec(other.re).add_req(self.im.mul_spec(other.im))
        &&& self.im.mul_req(other.re)
        &&& self.re.mul_req(other.im)
        &&& self.im.mul_spec(other.re).sub_req(self.re.mul_spec(other.im))
        &&& self.re.mul_spec(other.re).add_spec(self.im.mul_spec(other.im)).div_req(denom)
        &&& self.im.mul_spec(other.re).sub_spec(self.re.mul_spec(other.im)).div_req(denom)
    }

    /// `(a + bi) / (c + di) = ((ac + bd) + (bc - ad)i) / (c·c + d·d)`.
    open spec fn div_spec(self, other: Self) -> Self {
        let denom = div_denominator(other);
        Complex {
            re: self.re.mul_spec(other.re).add_spec(self.im.mul_spec(other.im)).div_spec(denom),
            im: self.im.mul_spec(other.re).sub_spec(self.re.mul_spec(other.im)).div_spec(denom),
        }
    }
}

impl<T: Scalar> Div for Complex<T> {
    type Output = Complex<T>;

    fn div(self, other: Self) -> (r: Self) {
        let a = self.re;
        let b = self.im;
        let c = other.re;
        let d = other.im;
        let denom = c * c + d * d;
        let rep = a * c + b * d;
        let imp = b * c - a * d;
        Complex { re: rep / denom, im: imp / denom }
    }
}

impl<T: Scalar> Complex<T> {
    /// Adds `other` to this number in place.
    pub fn add_assign(&mut self, other: Complex<T>)
        requires
            obeys_scalar_specs::<T>(),
            old(self).add_req(other),
        ensures
            *final(self) == old(self).add_spec(other),
    {
        *self = *self + other;
    }

    /// Subtracts `other` from this number in place.
    pub fn sub_assign(&mut self, other: Complex<T>)
        requires
            obeys_scalar_specs::<T>(),
            old(self).sub_req(other),
        ensures
            *final(self) == old(self).sub_spec(other),
    {
        *self = *self - other;
    }

    /// Multiplies this number by `other` in place.
    pub fn mul_assign(&mut self, other: Complex<T>)
        requires
            old(self).mul_req(other),
        ensures
            *final(self) == old(self).mul_spec(other),
    {
        *self = *self * other;
    }

    /// Divides this number by `other` in place.
    pub fn div_assign(&mut self, other: Complex<T>)
        requires
            old(self).div_req(other),
        ensures
            *final(self) == old(self).div_spec(other),
    {
        *self = *self / other;
    }
}

} // verus!
