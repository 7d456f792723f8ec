use toy_quant::complex::Complex;
use toy_quant::error::QuantumError;
use toy_quant::qubit::Qubit;

#[test]
fn fixed_vals_no_panic() {
    Qubit::<f32>::plus().unwrap();
    Qubit::<f32>::zero().unwrap();
    Qubit::<f32>::one().unwrap();
}

#[test]
#[should_panic]
fn too_low_panics() {
    Qubit::<f32>::new(Complex::zero(), Complex::zero()).unwrap();
}

#[test]
#[should_panic]
fn too_high_panics() {
    Qubit::<f32>::new(Complex::one(), Complex::one()).unwrap();
}

#[test]
fn legal_new_constructors() {
    Qubit::<f32>::new(Complex::i(), Complex::zero()).unwrap();
    Qubit::<f32>::new(-Complex::i(), Complex::zero()).unwrap();
    Qubit::<f32>::new(Complex::i(), -Complex::zero()).unwrap();
    Qubit::<f32>::new(Complex::one(), Complex::zero()).unwrap();
    Qubit::<f32>::new(Complex::zero(), -Complex::one()).unwrap();
}

fn from_theta_phi(theta: f32, phi: f32) -> Qubit<f32> {
    Qubit::from_theta_phi((theta / 2.0).cos(), (theta / 2.0).sin(), phi.cos(), phi.sin()).unwrap()
}

fn from_theta_phi_gamma(theta: f32, phi: f32, gamma: f32) -> Qubit<f32> {
    Qubit::from_theta_phi_gamma(
        (theta / 2.0).cos(),
        (theta / 2.0).sin(),
        phi.cos(),
        phi.sin(),
        gamma.cos(),
        gamma.sin(),
    )
    .unwrap()
}

#[test]
fn from_ang_for_any_vals() {
    from_theta_phi(5.2, 542.23);
    from_theta_phi(32.52, 145.54);
    from_theta_phi(24.54, 5154.576);
    from_theta_phi_gamma(35235.523, 321465.23, 5432.43);
    from_theta_phi_gamma(12235.523, 211465.23, 21432.43);
    from_theta_phi_gamma(45675235.523, 56421465.23, 134432.43);
}

#[test]
fn construction_failures_are_reported() {
    assert_eq!(
        Qubit::<f32>::new(Complex::zero(), Complex::zero()),
        Err(QuantumError::NotNormalized)
    );
    assert_eq!(
        Qubit::<f32>::new(Complex::one(), Complex::one()),
        Err(QuantumError::NotNormalized)
    );
    assert!(Qubit::<f32>::new(Complex::i(), Complex::zero()).is_ok());
    assert!(Qubit::<f32>::new(-Complex::i(), Complex::zero()).is_ok());
    assert!(Qubit::<f32>::new(Complex::one(), Complex::zero()).is_ok());
}

#[test]
fn tolerance_of_normalization() {
    // 1 + 5e-7 is within one millionth of one, 1 + 4e-6 is not.
    let near = Complex::new((1.0f32 + 5.0e-7).sqrt(), 0.0);
    assert!(Qubit::new(near, Complex::zero()).is_ok());
    let far = Complex::new((1.0f32 + 4.0e-6).sqrt(), 0.0);
    assert!(Qubit::new(far, Complex::zero()).is_err());
}

#[test]
fn canonical_states_are_normalized() {
    for q in &[
        Qubit::<f32>::zero().unwrap(),
        Qubit::one().unwrap(),
        Qubit::plus().unwrap(),
        Qubit::minus().unwrap(),
    ] {
        let norm = q.p_0().mag_square() + q.p_1().mag_square();
        assert!((norm - 1.0).abs() <= 1.0e-6);
    }
}

#[test]
fn plus_and_minus_amplitudes() {
    let s = std::f32::consts::FRAC_1_SQRT_2;
    let plus = Qubit::<f32>::plus().unwrap();
    assert_eq!(plus.p_0(), Complex::new(s, 0.0));
    assert_eq!(plus.p_1(), Complex::new(s, 0.0));
    let minus = Qubit::<f32>::minus().unwrap();
    assert_eq!(minus.p_0(), Complex::new(s, 0.0));
    assert_eq!(minus.p_1(), Complex::new(-s, 0.0));
}

#[test]
fn negation_changes_the_value() {
    let one = Qubit::<f32>::one().unwrap();
    assert_ne!(-one, one);
    assert_eq!(-(-one), one);
    assert_eq!((-one).p_1(), Complex::new(-1.0, 0.0));
}

#[test]
fn sample_with_target_is_a_threshold() {
    let plus = Qubit::<f32>::plus().unwrap();
    assert!(plus.sample_is_zero_with(0.25));
    assert!(!plus.sample_is_zero_with(0.75));
    let zero = Qubit::<f32>::zero().unwrap();
    assert!(zero.sample_is_zero_with(0.99999994));
    let one = Qubit::<f32>::one().unwrap();
    assert!(!one.sample_is_zero_with(0.0));
}

#[test]
fn sample_of_basis_states_is_certain() {
    let zero = Qubit::<f32>::zero().unwrap();
    let one = Qubit::<f32>::one().unwrap();
    for _ in 0..1000 {
        assert!(zero.sample_is_zero());
        assert!(!zero.sample_is_one());
        assert_eq!(zero.sample(), 0.0);
        assert!(one.sample_is_one());
        assert_eq!(one.sample(), 1.0);
    }
}

#[test]
fn sample_of_plus_is_even() {
    let plus = Qubit::<f32>::plus().unwrap();
    let mut zeros = 0;
    for _ in 0..1000 {
        if plus.sample_is_zero() {
            zeros += 1;
        }
    }
    assert!(400 < zeros && zeros < 600);
}

#[test]
fn approx_eq_tolerates_rounding() {
    let a = Qubit::<f32>::plus().unwrap();
    let b = Qubit::new(Complex::new(0.7071071, 0.0), Complex::new(0.7071065, 0.0)).unwrap();
    assert!(a.approx_eq(&b));
    assert!(!a.approx_eq(&-a));
}
