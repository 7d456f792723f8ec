use approx::RelativeEq;
use toy_quant::complex::Complex;
use toy_quant::error::QuantumError;
use toy_quant::gates::binary::gates;
use toy_quant::gates::binary::BinaryGate;
use toy_quant::matrix4::Matrix4x4;
use toy_quant::qubit::Qubit;
use toy_quant::registers::quantum::QuantumRegister;

type Matrix = Matrix4x4<Complex<f32>>;

fn rel_amplitude(a: Complex<f32>, b: Complex<f32>) -> bool {
    a.re.relative_eq(&b.re, f32::EPSILON, f32::EPSILON)
        && a.im.relative_eq(&b.im, f32::EPSILON, f32::EPSILON)
}

fn rel_matrix(a: &Matrix, b: &Matrix) -> bool {
    (0..4).all(|i| (0..4).all(|j| rel_amplitude(a.get(i, j), b.get(i, j))))
}

fn identity() -> Matrix {
    let o = Complex::one();
    let z = Complex::zero();
    Matrix4x4::new([[o, z, z, z], [z, o, z, z], [z, z, o, z], [z, z, z, o]])
}

#[test]
fn cnot_propertys() {
    let x: BinaryGate<f32> = gates::cnot().unwrap();
    // CNOT ^2 = 1
    assert!(rel_matrix(x.compose(&x).unwrap().matrix(), &identity()));
    // CNOT, mirrored CNOT, CNOT is SWAP
    assert!(rel_matrix(
        x.compose(&x.swap().unwrap())
            .unwrap()
            .compose(&x)
            .unwrap()
            .matrix(),
        gates::swap().unwrap().matrix()
    ));
    assert!(rel_matrix(
        gates::swap().unwrap().matrix(),
        x.swap()
            .unwrap()
            .compose(&x)
            .unwrap()
            .compose(&x.swap().unwrap())
            .unwrap()
            .matrix()
    ))
}

#[test]
fn swap_propertys() {
    let gate: BinaryGate<f32> = gates::swap().unwrap();
    let x = gate.matrix();
    assert!(rel_matrix(&x.product(x), &identity()));
}

#[test]
fn cnot_zero_one() {
    let cnot: BinaryGate<f32> = gates::cnot().unwrap();
    let zero = || Qubit::<f32>::zero().unwrap();
    let one = || Qubit::<f32>::one().unwrap();

    for (c_in, t_in, c_out, t_out) in [
        (zero(), zero(), zero(), zero()),
        (zero(), one(), zero(), one()),
        (one(), zero(), one(), one()),
        (one(), one(), one(), zero()),
    ]
    .iter()
    .cloned()
    {
        let reg_in = QuantumRegister::from_2_qubits(c_in, t_in);
        let reg_out = QuantumRegister::from_2_qubits(c_out, t_out);
        assert_eq!(cnot.apply(reg_in), reg_out);
    }
}

#[test]
fn cnot_and_swap_matrices() {
    let o = Complex::<f32>::one();
    let z = Complex::<f32>::zero();
    assert_eq!(
        *gates::cnot::<f32>().unwrap().matrix(),
        Matrix4x4::new([[o, z, z, z], [z, o, z, z], [z, z, z, o], [z, z, o, z]])
    );
    assert_eq!(
        *gates::swap::<f32>().unwrap().matrix(),
        Matrix4x4::new([[o, z, z, z], [z, z, o, z], [z, o, z, z], [z, z, z, o]])
    );
}

#[test]
fn involutions_are_exact_over_integers() {
    let o = Complex::<i64>::one();
    let z = Complex::<i64>::zero();
    let identity = Matrix4x4::new([[o, z, z, z], [z, o, z, z], [z, z, o, z], [z, z, z, o]]);
    let cnot: BinaryGate<i64> = gates::cnot().unwrap();
    let swap: BinaryGate<i64> = gates::swap().unwrap();
    assert_eq!(*cnot.compose(&cnot).unwrap().matrix(), identity);
    assert_eq!(*swap.compose(&swap).unwrap().matrix(), identity);
    let mirrored = cnot.swap().unwrap();
    assert_eq!(
        cnot.compose(&mirrored).unwrap().compose(&cnot).unwrap(),
        swap
    );
    assert_eq!(
        mirrored.compose(&cnot).unwrap().compose(&mirrored).unwrap(),
        swap
    );
}

#[test]
fn compose_applies_the_right_gate_first() {
    // SWAP after CNOT maps |10> to |11> and then to |11>; CNOT after SWAP
    // maps |10> to |01> and leaves it there.
    let cnot: BinaryGate<f32> = gates::cnot().unwrap();
    let swap: BinaryGate<f32> = gates::swap().unwrap();
    let zero = Qubit::<f32>::zero().unwrap();
    let one = Qubit::<f32>::one().unwrap();
    let swap_after_cnot = swap.compose(&cnot).unwrap();
    assert_eq!(
        swap_after_cnot.apply(QuantumRegister::from_2_qubits(one, zero)),
        QuantumRegister::from_2_qubits(one, one)
    );
    let cnot_after_swap = cnot.compose(&swap).unwrap();
    assert_eq!(
        cnot_after_swap.apply(QuantumRegister::from_2_qubits(one, zero)),
        QuantumRegister::from_2_qubits(zero, one)
    );
}

#[test]
fn mirrored_cnot_is_controlled_by_the_second_qubit() {
    let mirrored = gates::cnot::<f32>().unwrap().swap().unwrap();
    let zero = Qubit::<f32>::zero().unwrap();
    let one = Qubit::<f32>::one().unwrap();
    assert_eq!(
        mirrored.apply(QuantumRegister::from_2_qubits(zero, one)),
        QuantumRegister::from_2_qubits(one, one)
    );
    assert_eq!(
        mirrored.apply(QuantumRegister::from_2_qubits(one, zero)),
        QuantumRegister::from_2_qubits(one, zero)
    );
}

#[test]
fn non_unitary_4x4_is_refused() {
    let o = Complex::<f32>::one();
    let z = Complex::<f32>::zero();
    let singular = Matrix4x4::new([[o, z, z, z], [z, o, z, z], [z, z, o, z], [z, z, o, z]]);
    assert_eq!(BinaryGate::new(singular), Err(QuantumError::NotUnitary));
    let bytes = Matrix4x4::new([[2u8, 0, 0, 0], [0, 1, 0, 0], [0, 0, 1, 0], [0, 0, 0, 1]]);
    assert_eq!(
        BinaryGate::<f32>::new_u8(bytes),
        Err(QuantumError::NotUnitary)
    );
    let large = Matrix4x4::new([[255u8, 0, 0, 0], [0, 1, 0, 0], [0, 0, 1, 0], [0, 0, 0, 1]]);
    assert!(BinaryGate::<f32>::new_u8(large).is_err());
}
