use approx::RelativeEq;
use toy_quant::complex::Complex;
use toy_quant::gates::unitary::gates::pauli;
use toy_quant::gates::unitary::gates::{h, not, z};
use toy_quant::gates::unitary::UnaryGate;
use toy_quant::matrix::Matrix2x2;
use toy_quant::qubit::Qubit;

fn rel(a: f32, b: f32) -> bool {
    a.relative_eq(&b, f32::EPSILON, f32::EPSILON)
}

fn rel_complex(a: Complex<f32>, b: Complex<f32>) -> bool {
    rel(a.re, b.re) && rel(a.im, b.im)
}

fn rel_qubit(a: Qubit<f32>, b: Qubit<f32>) -> bool {
    rel_complex(a.p_0(), b.p_0()) && rel_complex(a.p_1(), b.p_1())
}

fn rel_identity(m: &Matrix2x2<Complex<f32>>) -> bool {
    rel_complex(m.0, Complex::one())
        && rel_complex(m.1, Complex::zero())
        && rel_complex(m.2, Complex::zero())
        && rel_complex(m.3, Complex::one())
}

fn zero() -> Qubit<f32> {
    Qubit::zero().unwrap()
}

fn one() -> Qubit<f32> {
    Qubit::one().unwrap()
}

fn plus() -> Qubit<f32> {
    Qubit::plus().unwrap()
}

fn minus() -> Qubit<f32> {
    Qubit::minus().unwrap()
}

#[test]
fn not_ab_is_ba() {
    let not: UnaryGate<f32> = not().unwrap();
    assert_eq!(not.run(zero()), one());
    assert_eq!(not.run(one()), zero());
    assert_eq!(not.run(plus()), plus());
}

#[test]
fn z_works() {
    let z: UnaryGate<f32> = z().unwrap();
    assert_eq!(z.run(zero()), zero());
    assert_eq!(z.run(one()), -one());
    assert_eq!(z.run(-one()), one())
}

#[test]
fn h_works() {
    let h: UnaryGate<f32> = h().unwrap();
    assert!(rel_qubit(h.run(zero()), plus()));
    assert!(rel_qubit(h.run(one()), minus()));
    assert!(rel_qubit(h.run(-one()), -minus()));
    assert!(rel_qubit(h.run(-zero()), -plus()));
    assert!(rel_qubit(h.run(plus()), zero()));
    assert!(rel_qubit(h.run(minus()), one()));
    assert!(rel_qubit(h.run(-plus()), -zero()));
    assert!(rel_qubit(h.run(-minus()), -one()));
}

#[test]
fn h_squared_is_i() {
    let gate: UnaryGate<f32> = h().unwrap();
    let h = gate.matrix();
    let i = h * h;
    assert!(rel_identity(&i));
}

#[test]
fn pauli_squared_is_i() {
    for i in &[
        pauli::x::<f32>().unwrap(),
        pauli::y::<f32>().unwrap(),
        pauli::z::<f32>().unwrap(),
    ] {
        let m = i.matrix();
        let i = m * m;
        assert!(rel_identity(&i));
    }
}

#[test]
fn non_unitary_matrix_is_refused() {
    let twice = Matrix2x2(
        Complex::new(2.0f32, 0.0),
        Complex::zero(),
        Complex::zero(),
        Complex::new(2.0, 0.0),
    );
    assert_eq!(
        UnaryGate::new(twice),
        Err(toy_quant::error::QuantumError::NotUnitary)
    );
    let shear = Matrix2x2(
        Complex::<f32>::one(),
        Complex::one(),
        Complex::zero(),
        Complex::one(),
    );
    assert!(UnaryGate::new(shear).is_err());
}

#[test]
fn every_gate_is_unitary() {
    for gate in &[
        not::<f32>().unwrap(),
        z().unwrap(),
        h().unwrap(),
        pauli::y().unwrap(),
    ] {
        let m = gate.matrix();
        let adjoint = m.transpose().map(|x| x.conj());
        let gram = m * &adjoint;
        assert!(gram.0.approx_eq(Complex::one()));
        assert!(gram.1.approx_eq(Complex::zero()));
        assert!(gram.2.approx_eq(Complex::zero()));
        assert!(gram.3.approx_eq(Complex::one()));
    }
}

#[test]
fn hadamard_matrix_elements() {
    let gate: UnaryGate<f32> = h().unwrap();
    let s = std::f32::consts::FRAC_1_SQRT_2;
    assert_eq!(
        *gate.matrix(),
        Matrix2x2(
            Complex::new(s, 0.0),
            Complex::new(s, 0.0),
            Complex::new(s, 0.0),
            Complex::new(-s, 0.0)
        )
    );
}

#[test]
fn gates_over_integers_are_exact() {
    let not: UnaryGate<i32> = not().unwrap();
    let zero = Qubit::<i32>::zero().unwrap();
    let one = Qubit::<i32>::one().unwrap();
    assert_eq!(not.run(zero), one);
    let y: UnaryGate<i32> = pauli::y().unwrap();
    let m = y.matrix();
    assert_eq!(
        m * m,
        Matrix2x2(
            Complex::one(),
            Complex::zero(),
            Complex::zero(),
            Complex::one()
        )
    );
    assert!(h::<i32>().is_err());
}

#[test]
fn gates_keep_qubits_normalized() {
    let mut q = Qubit::<f32>::from_theta_phi(0.3f32.cos(), 0.3f32.sin(), 1.1f32.cos(), 1.1f32.sin())
        .unwrap();
    let gates = [
        h::<f32>().unwrap(),
        not().unwrap(),
        pauli::y().unwrap(),
        z().unwrap(),
    ];
    for round in 0..40 {
        q = gates[round % 4].run(q);
        let norm = q.p_0().mag_square() + q.p_1().mag_square();
        assert!((norm - 1.0).abs() <= 1.0e-6);
        let negated = -q;
        let norm = negated.p_0().mag_square() + negated.p_1().mag_square();
        assert!((norm - 1.0).abs() <= 1.0e-6);
    }
    let exact = pauli::y::<i64>().unwrap().run(Qubit::one().unwrap());
    assert_eq!(exact.p_0(), Complex::new(0, -1));
    assert_eq!(exact.p_1(), Complex::zero());
    assert!(Qubit::new(exact.p_0(), exact.p_1()).is_ok());
}
