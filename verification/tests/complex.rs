use toy_quant::complex::Complex;
use toy_quant::random::{random_unit, unit_from_bits};
use toy_quant::scalar::{abs, approx_eq, dyadic, from_u8, one, zero};

#[test]
fn divide() {
    let a = Complex::new(3.0f32, 2.0);
    let b = Complex::new(4.0, -3.0);
    assert_eq!(a / b, Complex::new(6.0 / 25.0, 17.0 / 25.0));
    let a = Complex::new(4.0f32, 5.0);
    let b = Complex::new(2.0, 6.0);
    assert_eq!(a / b, Complex::new(19.0 / 20.0, -7.0 / 20.0));
    let a = Complex::new(2.0f32, -1.0);
    let b = Complex::new(-3.0, 6.0);
    assert_eq!(a / b, Complex::new(-4.0 / 15.0, -1.0 / 5.0));
    let a = Complex::new(2.0f32, -1.0);
    let b = Complex::new(-3.0, 6.0);
    assert_eq!(a / b, Complex::new(-4.0 / 15.0, -1.0 / 5.0));
    let a = Complex::new(-6.0f32, -3.0);
    let b = Complex::new(4.0, 6.0);
    assert_eq!(a / b, Complex::new(-21.0 / 26.0, 6.0 / 13.0));
}

#[test]
fn tolerance_is_one_millionth() {
    assert_eq!(toy_quant::scalar::tolerance::<f32>(), 1.0e-6f32);
    assert_eq!(toy_quant::scalar::tolerance::<i32>(), 0);
}

#[test]
fn frac_1_sqrt_2_is_the_single_precision_constant() {
    assert_eq!(toy_quant::scalar::frac_1_sqrt_2::<f32>(), std::f32::consts::FRAC_1_SQRT_2);
}

#[test]
fn arithmetic_over_integers() {
    let a = Complex::new(3, 2);
    let b = Complex::new(4, -3);
    assert_eq!(a + b, Complex::new(7, -1));
    assert_eq!(a - b, Complex::new(-1, 5));
    assert_eq!(a * b, Complex::new(18, -1));
    assert_eq!(a * 5, Complex::new(15, 10));
    assert_eq!(-a, Complex::new(-3, -2));
    assert_eq!(a.conj(), Complex::new(3, -2));
    assert_eq!(a.mag_square(), 13);
    assert_eq!(Complex::new(18, -1) / b, Complex::new(3, 2));
    assert_eq!(Complex::<i32>::i() * Complex::i(), Complex::new(-1, 0));
}

#[test]
fn arithmetic_in_place() {
    let mut c = Complex::new(1.5f32, -2.0);
    c.add_assign(Complex::new(0.5, 1.0));
    assert_eq!(c, Complex::new(2.0, -1.0));
    c.sub_assign(Complex::new(1.0, 1.0));
    assert_eq!(c, Complex::new(1.0, -2.0));
    c.mul_assign(Complex::new(0.0, 1.0));
    assert_eq!(c, Complex::new(2.0, 1.0));
    c.div_assign(Complex::new(0.0, 1.0));
    assert_eq!(c, Complex::new(1.0, -2.0));
}

#[test]
fn constants_and_conversions() {
    assert_eq!(Complex::<f32>::zero(), Complex::new(0.0, 0.0));
    assert_eq!(Complex::<f32>::one(), Complex::new(1.0, 0.0));
    assert_eq!(Complex::<f32>::i(), Complex::new(0.0, 1.0));
    assert_eq!(Complex::from_re(2.5f32), Complex::new(2.5, 0.0));
    assert_eq!(Complex::from(2.5f32), Complex::new(2.5, 0.0));
    assert!(Complex::<f32>::zero().is_zero());
    assert!(!Complex::<f32>::zero().is_one());
    assert!(Complex::<f32>::one().is_one());
    assert!(!Complex::new(1.0f32, 1.0e-3).is_one());
}

#[test]
fn division_by_zero_is_not_finite() {
    let q = Complex::new(1.0f32, 1.0) / Complex::zero();
    assert!(!q.re.is_finite());
    assert!(!q.im.is_finite());
}

#[test]
fn polar_construction() {
    let theta = 0.75f32;
    assert_eq!(
        Complex::mod_arg(2.0f32, theta.cos(), theta.sin()),
        Complex::new(2.0 * theta.cos(), 2.0 * theta.sin())
    );
    assert_eq!(
        Complex::exp_ix(theta.cos(), theta.sin()),
        Complex::new(theta.cos(), theta.sin())
    );
    let unit = Complex::exp_ix(theta.cos(), theta.sin());
    assert!((unit.mag_square() - 1.0).abs() <= 1.0e-6);
}

#[test]
fn approximate_equality() {
    assert_eq!(abs(-2.5f32), 2.5);
    assert_eq!(abs(2.5f32), 2.5);
    assert_eq!(abs(-7i32), 7);
    assert!(approx_eq(1.0f32, 1.0 + 5.0e-7));
    assert!(!approx_eq(1.0f32, 1.0 + 3.0e-6));
    assert!(!approx_eq(1.0f32, f32::NAN));
    assert!(approx_eq(4i32, 4));
    assert!(!approx_eq(4i32, 5));
    assert!(Complex::new(1.0f32, 0.0).approx_eq(Complex::new(1.0000005, -0.0000005)));
    assert!(!Complex::new(1.0f32, 0.0).approx_eq(Complex::new(1.0, 0.00001)));
}

#[test]
fn scalars_from_integers() {
    assert_eq!(zero::<f32>(), 0.0);
    assert_eq!(one::<f32>(), 1.0);
    assert_eq!(from_u8::<f32>(0), 0.0);
    assert_eq!(from_u8::<f32>(127), 127.0);
    assert_eq!(from_u8::<f32>(128), 128.0);
    assert_eq!(from_u8::<f32>(255), 255.0);
    assert_eq!(from_u8::<i32>(201), 201);
    assert_eq!(dyadic::<f32>(0), 0.0);
    assert_eq!(dyadic::<f32>(1), 5.9604645e-8);
    assert_eq!(dyadic::<f32>(0x80_0000), 0.5);
    assert_eq!(dyadic::<f32>(0xFF_FFFF), 0.99999994);
    assert_eq!(dyadic::<f64>(0xC0_0000), 0.75);
    assert_eq!(dyadic::<i64>(0xFF_FFFF), 0);
}

#[test]
fn variates_lie_in_the_unit_interval() {
    assert_eq!(unit_from_bits::<f32>(0), 0.0);
    assert_eq!(unit_from_bits::<f32>(0xFF), 0.0);
    assert_eq!(unit_from_bits::<f32>(0x100), 5.9604645e-8);
    assert_eq!(unit_from_bits::<f32>(0x8000_0000), 0.5);
    assert_eq!(unit_from_bits::<f32>(u32::MAX), 0.99999994);
    let mut low = 0;
    for _ in 0..10000 {
        let u = random_unit::<f32>();
        assert!(0.0 <= u && u < 1.0);
        if u < 0.5 {
            low += 1;
        }
    }
    assert!(4500 < low && low < 5500);
}
