//! A single qubit that is entangled with nothing.
use crate::complex::Complex;
use crate::error::QuantumError;
use crate::random::{random_unit, unit_req};
use crate::scalar::{
    approx_eq, approx_eq_req, approx_eq_spec, dyadic_req, dyadic_spec, frac_1_sqrt_2, less,
    obeys_scalar_specs, small, Scalar, FRAC_1_SQRT_2_NUMERATOR,
};
use core::ops::Neg;
use vstd::prelude::*;
use vstd::std_specs::ops::{AddSpec, MulSpec, NegSpec};

verus! {

/// A two-level quantum state: the amplitude of `|0>` and that of `|1>`.
#[derive(Debug, Clone, Copy, PartialEq)]
pub struct Qubit<T: Scalar> {
    p_0: Complex<T>,
    p_1: Complex<T>,
}

impl<T: Scalar> View for Qubit<T> {
    type V = (Complex<T>, Complex<T>);

    /// The amplitudes of `|0>` and of `|1>`.
    closed spec fn view(&self) -> (Complex<T>, Complex<T>) {
        (self.p_0, self.p_1)
    }
}

/// Whether `T` can add up the squared magnitudes of two amplitudes.
pub open spec fn norm_square_req<T: Scalar>(p_0: Complex<T>, p_1: Complex<T>) -> bool {
    &&& p_0.mag_square_req()
    &&& p_1.mag_square_req()
    &&& p_0.mag_square_spec().add_req(p_1.mag_square_spec())
}

/// `|p_0|² + |p_1|²`.
pub open spec fn norm_square_spec<T: Scalar>(p_0: Complex<T>, p_1: Complex<T>) -> T {
    p_0.mag_square_spec().add_spec(p_1.mag_square_spec())
}

/// Whether `T` can decide if two amplitudes are normalized.
pub open spec fn normalized_req<T: Scalar>(p_0: Complex<T>, p_1: Complex<T>) -> bool {
    &&& norm_square_req(p_0, p_1)
    &&& approx_eq_req(small::<T>(1), norm_square_spec(p_0, p_1))
}

/// The squared magnitudes sum to one within the tolerance.
pub open spec fn normalized_spec<T: Scalar>(p_0: Complex<T>, p_1: Complex<T>) -> bool {
    approx_eq_spec(small::<T>(1), norm_square_spec(p_0, p_1))
}

/// The amplitudes of the basis state of a classical bit: `|1>` where it is
/// set, `|0>` where it is clear.
pub open spec fn basis_amplitudes<T: Scalar>(bit: bool) -> (Complex<T>, Complex<T>) {
    if bit {
        (Complex::<T>::zero_spec(), Complex::<T>::one_spec())
    } else {
        (Complex::<T>::one_spec(), Complex::<T>::zero_spec())
    }
}

/// `h + 0i`, with `h` the square root of one half.
pub open spec fn frac_1_sqrt_2_complex<T: Scalar>() -> Complex<T> {
    Complex::from_re_spec(dyadic_spec::<T>(FRAC_1_SQRT_2_NUMERATOR))
}

/// Whether `T` can compute the amplitudes of a point of the Bloch sphere.
pub open spec fn bloch_req<T: Scalar>(
    cos_half_theta: T,
    sin_half_theta: T,
    cos_phi: T,
    sin_phi: T,
) -> bool {
    &&& Complex::<T>::mod_arg_req(small::<T>(1), cos_phi, sin_phi)
    &&& Complex::<T>::mod_arg_spec(small::<T>(1), cos_phi, sin_phi).mul_req(sin_half_theta)
}

/// The amplitudes `cos(θ/2)` and `e^iφ·sin(θ/2)`.
pub open spec fn bloch_spec<T: Scalar>(
    cos_half_theta: T,
    sin_half_theta: T,
    cos_phi: T,
    sin_phi: T,
) -> (Complex<T>, Complex<T>) {
    (
        Complex::from_re_spec(cos_half_theta),
        Complex::<T>::mod_arg_spec(small::<T>(1), cos_phi, sin_phi).mul_spec(sin_half_theta),
    )
}

/// Whether `T` can multiply both amplitudes by the phase `e^iγ`.
pub open spec fn phased_req<T: Scalar>(
    amplitudes: (Complex<T>, Complex<T>),
    cos_gamma: T,
    sin_gamma: T,
) -> bool {
    let phase = Complex::<T>::mod_arg_spec(small::<T>(1), cos_gamma, sin_gamma);
    &&& Complex::<T>::mod_arg_req(small::<T>(1), cos_gamma, sin_gamma)
    &&& phase.mul_req(amplitudes.0)
    &&& phase.mul_req(amplitudes.1)
}

/// Both amplitudes times the phase `e^iγ`.
pub open spec fn phased_spec<T: Scalar>(
    amplitudes: (Complex<T>, Complex<T>),
    cos_gamma: T,
    sin_gamma: T,
) -> (Complex<T>, Complex<T>) {
    let phase = Complex::<T>::mod_arg_spec(small::<T>(1), cos_gamma, sin_gamma);
    (phase.mul_spec(amplitudes.0), phase.mul_spec(amplitudes.1))
}

impl<T: Scalar> Qubit<T> {
    /// The qubit with the given amplitudes, whatever their norm.
    pub(crate) fn from_amplitudes(p_0: Complex<T>, p_1: Complex<T>) -> (r: Self)
        ensures
            r@ == (p_0, p_1),
    {
        Qubit { p_0, p_1 }
    }

    /// Whether the state is normalized: the probabilities of its two
    /// outcomes sum to one within the tolerance.
    pub open spec fn is_normalized(&self) -> bool {
        normalized_spec(self@.0, self@.1)
    }

    /// The qubit with amplitude `p_0` for `|0>` and `p_1` for `|1>`.
    ///
    /// It exists only if `|p_0|² + |p_1|²` is one within the tolerance.
    pub fn new(p_0: Complex<T>, p_1: Complex<T>) -> (r: Result<Self, QuantumError>)
        requires
            obeys_scalar_specs::<T>(),
            normalized_req(p_0, p_1),
        ensures
            normalized_spec(p_0, p_1) <==> r is Ok,
            r matches Ok(q) ==> q@ == (p_0, p_1) && q.is_normalized(),
            r matches Err(e) ==> e == QuantumError::NotNormalized,
    {
        let norm = p_0.mag_square() + p_1.mag_square();
        if approx_eq(T::from(1i8), norm) {
            Ok(Qubit { p_0, p_1 })
        } else {
            Err(QuantumError::NotNormalized)
        }
    }

    /// The state `|0>`.
    pub fn zero() -> (r: Result<Self, QuantumError>)
        requires
            obeys_scalar_specs::<T>(),
            normalized_req(Complex::<T>::one_spec(), Complex::<T>::zero_spec()),
        ensures
            normalized_spec(Complex::<T>::one_spec(), Complex::<T>::zero_spec()) <==> r is Ok,
            r matches Ok(q) ==> q@ == (Complex::<T>::one_spec(), Complex::<T>::zero_spec())
                && q.is_normalized(),
            r matches Err(e) ==> e == QuantumError::NotNormalized,
    {
        Self::new(Complex::one(), Complex::zero())
    }

    /// The state `|1>`.
    pub fn one() -> (r: Result<Self, QuantumError>)
        requires
            obeys_scalar_specs::<T>(),
            normalized_req(Complex::<T>::zero_spec(), Complex::<T>::one_spec()),
        ensures
            normalized_spec(Complex::<T>::zero_spec(), Complex::<T>::one_spec()) <==> r is Ok,
            r matches Ok(q) ==> q@ == (Complex::<T>::zero_spec(), Complex::<T>::one_spec())
                && q.is_normalized(),
            r matches Err(e) ==> e == QuantumError::NotNormalized,
    {
        Self::new(Complex::zero(), Complex::one())
    }

    /// The state `|+>`, `(|0> + |1>) / √2`.
    pub fn plus() -> (r: Result<Self, QuantumError>)
        requires
            obeys_scalar_specs::<T>(),
            dyadic_req::<T>(FRAC_1_SQRT_2_NUMERATOR),
            normalized_req(frac_1_sqrt_2_complex::<T>(), frac_1_sqrt_2_complex::<T>()),
        ensures
            normalized_spec(frac_1_sqrt_2_complex::<T>(), frac_1_sqrt_2_complex::<T>()) <==> r is Ok,
            r matches Ok(q) ==> q@ == (frac_1_sqrt_2_complex::<T>(), frac_1_sqrt_2_complex::<T>())
                && q.is_normalized(),
            r matches Err(e) ==> e == QuantumError::NotNormalized,
    {
        let h = frac_1_sqrt_2::<T>();
        Self::new(Complex::from_re(h), Complex::from_re(h))
    }

    /// The state `|->`, `(|0> - |1>) / √2`.
    pub fn minus() -> (r: Result<Self, QuantumError>)
        requires
            obeys_scalar_specs::<T>(),
            dyadic_req::<T>(FRAC_1_SQRT_2_NUMERATOR),
            dyadic_spec::<T>(FRAC_1_SQRT_2_NUMERATOR).neg_req(),
            normalized_req(
                frac_1_sqrt_2_complex::<T>(),
                Complex::from_re_spec(dyadic_spec::<T>(FRAC_1_SQRT_2_NUMERATOR).neg_spec()),
            ),
        ensures
            normalized_spec(
                frac_1_sqrt_2_complex::<T>(),
                Complex::from_re_spec(dyadic_spec::<T>(FRAC_1_SQRT_2_NUMERATOR).neg_spec()),
            ) <==> r is Ok,
            r matches Ok(q) ==> q@ == (
                frac_1_sqrt_2_complex::<T>(),
                Complex::from_re_spec(dyadic_spec::<T>(FRAC_1_SQRT_2_NUMERATOR).neg_spec()),
            ) && q.is_normalized(),
            r matches Err(e) ==> e == QuantumError::NotNormalized,
    {
        let h = frac_1_sqrt_2::<T>();
        Self::new(Complex::from_re(h), Complex::from_re(h.neg()))
    }

    /// The state `cos(θ/2)|0> + e^iφ sin(θ/2)|1>` of the Bloch sphere, from
    /// the cosine and the sine of `θ/2` and of `φ`.
    ///
    /// It exists only if the amplitudes computed from them are normalized.
    pub fn from_theta_phi(cos_half_theta: T, sin_half_theta: T, cos_phi: T, sin_phi: T) -> (r:
        Result<Self, QuantumError>)
        requires
            obeys_scalar_specs::<T>(),
            bloch_req(cos_half_theta, sin_half_theta, cos_phi, sin_phi),
            normalized_req(
                bloch_spec(cos_half_theta, sin_half_theta, cos_phi, sin_phi).0,
                bloch_spec(cos_half_theta, sin_half_theta, cos_phi, sin_phi).1,
            ),
        ensures
            normalized_spec(
                bloch_spec(cos_half_theta, sin_half_theta, cos_phi, sin_phi).0,
                bloch_spec(cos_half_theta, sin_half_theta, cos_phi, sin_phi).1,
            ) <==> r is Ok,
            r matches Ok(q) ==> q@ == bloch_spec(cos_half_theta, sin_half_theta, cos_phi, sin_phi)
                && q.is_normalized(),
            r matches Err(e) ==> e == QuantumError::NotNormalized,
    {
        Self::new(
            Complex::from_re(cos_half_theta),
            Complex::exp_ix(cos_phi, sin_phi) * sin_half_theta,
        )
    }

    /// The state of `from_theta_phi` with the global phase `e^iγ`, from the
    /// cosine and the sine of `θ/2`, of `φ` and of `γ`.
    ///
    /// It exists only if the amplitudes computed from them are normalized.
    pub fn from_theta_phi_gamma(
        cos_half_theta: T,
        sin_half_theta: T,
        cos_phi: T,
        sin_phi: T,
        cos_gamma: T,
        sin_gamma: T,
    ) -> (r: Result<Self, QuantumError>)
        requires
            obeys_scalar_specs::<T>(),
            bloch_req(cos_half_theta, sin_half_theta, cos_phi, sin_phi),
            phased_req(
                bloch_spec(cos_half_theta, sin_half_theta, cos_phi, sin_phi),
                cos_gamma,
                sin_gamma,
            ),
            normalized_req(
                phased_spec(
                    bloch_spec(cos_half_theta, sin_half_theta, cos_phi, sin_phi),
                    cos_gamma,
                    sin_gamma,
                ).0,
                phased_spec(
                    bloch_spec(cos_half_theta, sin_half_theta, cos_phi, sin_phi),
                    cos_gamma,
                    sin_gamma,
                ).1,
            ),
        ensures
            normalized_spec(
                phased_spec(
                    bloch_spec(cos_half_theta, sin_half_theta, cos_phi, sin_phi),
                    cos_gamma,
                    sin_gamma,
                ).0,
                phased_spec(
                    bloch_spec(cos_half_theta, sin_half_theta, cos_phi, sin_phi),
                    cos_gamma,
                    sin_gamma,
                ).1,
            ) <==> r is Ok,
            r matches Ok(q) ==> q@ == phased_spec(
                bloch_spec(cos_half_theta, sin_half_theta, cos_phi, sin_phi),
                cos_gamma,
                sin_gamma,
            ) && q.is_normalized(),
            r matches Err(e) ==> e == QuantumError::NotNormalized,
    {
        let phase_shift = Complex::exp_ix(cos_gamma, sin_gamma);
        let ket_0 = Complex::from_re(cos_half_theta);
        let ket_1 = Complex::exp_ix(cos_phi, sin_phi) * sin_half_theta;
        Self::new(phase_shift * ket_0, phase_shift * ket_1)
    }

    /// The amplitude of `|0>`.
    pub fn p_0(&self) -> (r: Complex<T>)
        ensures
            r == self@.0,
    {
        self.p_0
    }

    /// The amplitude of `|1>`.
    pub fn p_1(&self) -> (r: Complex<T>)
        ensures
            r == self@.1,
    {
        self.p_1
    }

    /// Whether `T` can compare both amplitudes within the tolerance.
    pub open spec fn approx_eq_req(&self, other: &Self) -> bool {
        self@.0.approx_eq_req(other@.0) && self@.1.approx_eq_req(other@.1)
    }

    /// Both amplitudes are equal within the tolerance, part by part.
    pub open spec fn approx_eq_spec(&self, other: &Self) -> bool {
        self@.0.approx_eq_spec(other@.0) && self@.1.approx_eq_spec(other@.1)
    }

    /// Whether the two states have the same amplitudes within the
    /// tolerance. A state and its negation are different states here.
    pub fn approx_eq(&self, other: &Self) -> (r: bool)
        requires
            obeys_scalar_specs::<T>(),
            self.approx_eq_req(other),
        ensures
            r == self.approx_eq_spec(other),
    {
        self.p_0.approx_eq(other.p_0) && self.p_1.approx_eq(other.p_1)
    }

    /// The outcome of a measurement for the variate `target`: `|0>` if and
    /// only if `target` is below `|p_0|²`.
    pub fn sample_is_zero_with(&self, target: T) -> (r: bool)
        requires
            obeys_scalar_specs::<T>(),
            self@.0.mag_square_req(),
        ensures
            r == less(target, self@.0.mag_square_spec()),
    {
        target < self.p_0.mag_square()
    }

    /// Measures the qubit: `true`, for `|0>`, with probability `|p_0|²`.
    ///
    /// Each call draws a variate of its own, and the state stays as it is.
    pub fn sample_is_zero(&self) -> (r: bool)
        requires
            obeys_scalar_specs::<T>(),
            unit_req::<T>(),
            self@.0.mag_square_req(),
        ensures
            exists|numerator: u32|
                numerator < crate::random::UNIT_STEPS && r == less(
                    #[trigger] dyadic_spec::<T>(numerator),
                    self@.0.mag_square_spec(),
                ),
    {
        let target = random_unit::<T>();
        self.sample_is_zero_with(target)
    }

    /// Measures the qubit: `true`, for `|1>`, with probability `1 - |p_0|²`.
    pub fn sample_is_one(&self) -> (r: bool)
        requires
            obeys_scalar_specs::<T>(),
            unit_req::<T>(),
            self@.0.mag_square_req(),
        ensures
            exists|numerator: u32|
                numerator < crate::random::UNIT_STEPS && r == !less(
                    #[trigger] dyadic_spec::<T>(numerator),
                    self@.0.mag_square_spec(),
                ),
    {
        !self.sample_is_zero()
    }

    /// Measures the qubit and gives the outcome as a scalar, zero or one.
    pub fn sample(&self) -> (r: T)
        requires
            obeys_scalar_specs::<T>(),
            unit_req::<T>(),
            self@.0.mag_square_req(),
        ensures
            exists|numerator: u32|
                numerator < crate::random::UNIT_STEPS && r == (if less(
                    #[trigger] dyadic_spec::<T>(numerator),
                    self@.0.mag_square_spec(),
                ) {
                    small::<T>(0)
                } else {
                    small::<T>(1)
                }),
    {
        if self.sample_is_zero() {
            T::from(0i8)
        } else {
            T::from(1i8)
        }
    }
}

impl<T: Scalar> vstd::std_specs::ops::NegSpecImpl for Qubit<T> {
    open spec fn obeys_neg_spec() -> bool {
        obeys_scalar_specs::<T>()
    }

    open spec fn neg_req(self) -> bool {
        NegSpec::neg_req(self@.0) && NegSpec::neg_req(self@.1)
    }

    /// The state with both amplitudes negated: the same physical state, and
    /// a different value.
    closed spec fn neg_spec(self) -> Self {
        Qubit { p_0: NegSpec::neg_spec(self.p_0), p_1: NegSpec::neg_spec(self.p_1) }
    }
}

impl<T: Scalar> Neg for Qubit<T> {
    type Output = Qubit<T>;

    fn neg(self) -> (r: Self) {
        Qubit { p_0: self.p_0.neg(), p_1: self.p_1.neg() }
    }
}

/// Negation negates each amplitude.
pub proof fn lemma_neg_view<T: Scalar>(q: Qubit<T>)
    ensures
        q.neg_spec()@ == (q@.0.neg_spec(), q@.1.neg_spec()),
{
}

} // verus!
