use toy_quant::complex::Complex;
use toy_quant::error::QuantumError;
use toy_quant::gates::binary::gates::cnot;
use toy_quant::gates::unitary::gates::h;
use toy_quant::qubit::Qubit;
use toy_quant::registers::classical::ClassicalRegister;
use toy_quant::registers::quantum::QuantumRegister;

#[test]
fn from_classical() {
    for i in 0..255u8 {
        let reg = QuantumRegister::<f32, 256>::from_classical(i.into()).unwrap();
        assert_eq!(reg.collapse().unwrap(), i.into())
    }
}

#[test]
fn collapse_bell_state_even_dist() {
    let bell_state = bell_state();
    let mut count_00 = 0;
    let mut count_11 = 0;
    for _ in 0..1000 {
        let collapsed = bell_state.collapse().unwrap();
        match collapsed.bits {
            0b00 => count_00 += 1,
            0b11 => count_11 += 1,
            _ => unreachable!("Bell state can only collapse to 00 or 11"),
        }
    }
    assert_eq!(count_00 + count_11, 1000);
    assert!(425 < count_00, "Too few |00>");
    assert!(count_00 < 575, "Too many |00>");
    assert!(425 < count_11, "Too few |11>");
    assert!(count_11 < 575, "Too many |11>");
}

fn bell_state() -> QuantumRegister<f32, 4> {
    let ket_00 = 0b00;
    let ket_11 = 0b11;
    let mut qubits = vec![Complex::<f32>::zero(); 4];
    qubits[ket_00] = std::f32::consts::FRAC_1_SQRT_2.into();
    qubits[ket_11] = std::f32::consts::FRAC_1_SQRT_2.into();
    QuantumRegister::from_vector(qubits).unwrap()
}

// Expensive to run: a hundred million collapses in all, spread over five
// tests of twenty million each so that no single test runs for long.
fn bell_collapse_never_panics(first: u64, last: u64) {
    let bell_state = bell_state();
    for _ in first..last {
        let collapsed = bell_state.collapse().unwrap();
        assert!(collapsed.bits == 0b00 || collapsed.bits == 0b11);
    }
}

#[test]
fn bell_collapse_never_panics_slow() {
    bell_collapse_never_panics(1, 20000000u64);
}

#[test]
fn bell_collapse_never_panics_slow_second_part() {
    bell_collapse_never_panics(20000000u64, 40000000u64);
}

#[test]
fn bell_collapse_never_panics_slow_third_part() {
    bell_collapse_never_panics(40000000u64, 60000000u64);
}

#[test]
fn bell_collapse_never_panics_slow_fourth_part() {
    bell_collapse_never_panics(60000000u64, 80000000u64);
}

#[test]
fn bell_collapse_never_panics_slow_fifth_part() {
    bell_collapse_never_panics(80000000u64, 100000000u64);
}

#[test]
fn bell_collapse_never_panics_for_any_variate() {
    // Every variate that a draw can give: the upper 24 bits of 32 random
    // bits over two to the twenty-fourth. The largest of them, 0.99999994,
    // is the one that the running sum never gets above.
    let bell_state = bell_state();
    let mut fallbacks = 0;
    for numerator in 0..(1u32 << 24) {
        let target = toy_quant::random::unit_from_bits::<f32>(numerator << 8);
        let collapsed = bell_state.collapse_with_target(target).unwrap();
        let expected = if target < 0.49999997 { 0b00 } else { 0b11 };
        assert_eq!(collapsed.bits, expected);
        if target >= 0.99999994 {
            fallbacks += 1;
        }
    }
    assert_eq!(fallbacks, 1);
    assert_eq!(
        toy_quant::random::unit_from_bits::<f32>(u32::MAX),
        0.99999994
    );
}

#[test]
fn out_of_range_target_is_reduced_into_the_unit_interval() {
    let reg = QuantumRegister::<f32, 4>::from_classical(ClassicalRegister { bits: 3 }).unwrap();
    assert_eq!(reg.collapse_with_target(-0.5).unwrap().bits, 3);
    for k in 0..4u8 {
        let reg = QuantumRegister::<f32, 4>::from_classical(ClassicalRegister { bits: k }).unwrap();
        for target in [-0.5f32, -0.25, -1.0, -7.75, -1.0e-10, -0.99999994, 1.5, 1.0e10] {
            assert_eq!(reg.collapse_with_target(target).unwrap().bits, k);
        }
    }
    // On the Bell state -0.25 stands for 0.75 and -0.75 for 0.25.
    assert_eq!(bell_state().collapse_with_target(-0.25).unwrap().bits, 0b11);
    assert_eq!(bell_state().collapse_with_target(-0.75).unwrap().bits, 0b00);
    assert_eq!(bell_state().collapse_with_target(-3.75).unwrap().bits, 0b00);
    assert_eq!(toy_quant::registers::quantum::reduced(-0.5f32), 0.5);
    assert_eq!(toy_quant::registers::quantum::reduced(2.25f32), 0.25);
    assert_eq!(toy_quant::registers::quantum::reduced(-2.25f32), 0.75);
    assert_eq!(toy_quant::registers::quantum::reduced(0.0f32), 0.0);
    assert_eq!(toy_quant::registers::quantum::reduced(-7i32), 0);
    let exact = QuantumRegister::<i64, 4>::from_classical(ClassicalRegister { bits: 3 }).unwrap();
    assert_eq!(exact.collapse_with_target(-5).unwrap().bits, 3);
}

#[test]
fn bell_state_colapse_target_approx_1() {
    let target = 0.99999994;
    let res = bell_state().collapse_with_target(target).unwrap().bits;
    match res {
        0b00 | 0b11 => {}
        _ => panic!("Invalid bell state collapse"),
    }
}

#[test]
fn entangled_pair_lands_on_00_or_11() {
    let ket_a = h::<f32>().unwrap().run(Qubit::zero().unwrap());
    let merged = QuantumRegister::from_2_qubits(ket_a, Qubit::zero().unwrap());
    let bell = cnot::<f32>().unwrap().apply(merged);
    assert!(bell.is_valid());
    let mut count_00 = 0;
    let mut count_11 = 0;
    for _ in 0..1000 {
        match bell.collapse().unwrap().bits {
            0b00 => count_00 += 1,
            0b11 => count_11 += 1,
            _ => unreachable!("Bell state can only collapse to 00 or 11"),
        }
    }
    assert!(425 < count_00 && count_00 < 575);
    assert!(425 < count_11 && count_11 < 575);
}

#[test]
fn classical_pattern_collapses_to_itself_for_every_target() {
    for k in [0u8, 1, 2, 3] {
        let reg = QuantumRegister::<f32, 4>::from_classical(ClassicalRegister { bits: k }).unwrap();
        for target in [0.0f32, 0.25, 0.5, 0.99999994, 1.0, 7.5] {
            assert_eq!(reg.collapse_with_target(target).unwrap().bits, k);
        }
    }
    let reg = QuantumRegister::<i32, 4>::from_classical(ClassicalRegister { bits: 2 }).unwrap();
    assert_eq!(reg.collapse_with_target(0).unwrap().bits, 2);
    assert_eq!(reg.collapse_with_target(5).unwrap().bits, 2);
}

#[test]
fn collapse_walks_the_running_sum() {
    // Probabilities 0.25, 0.25, 0.5, 0: the sums are 0.25, 0.5, 1, 1.
    let half = Complex::new(0.5f32, 0.0);
    let root = Complex::new(0.0, std::f32::consts::FRAC_1_SQRT_2);
    let reg =
        QuantumRegister::<f32, 4>::from_vector(vec![half, half, root, Complex::zero()]).unwrap();
    assert_eq!(reg.collapse_with_target(0.0).unwrap().bits, 0);
    assert_eq!(reg.collapse_with_target(0.2499).unwrap().bits, 0);
    assert_eq!(reg.collapse_with_target(0.25).unwrap().bits, 1);
    assert_eq!(reg.collapse_with_target(0.4999).unwrap().bits, 1);
    assert_eq!(reg.collapse_with_target(0.5).unwrap().bits, 2);
    assert_eq!(reg.collapse_with_target(0.99).unwrap().bits, 2);
    // The target is taken modulo one.
    assert_eq!(reg.collapse_with_target(1.0).unwrap().bits, 0);
    assert_eq!(reg.collapse_with_target(3.25).unwrap().bits, 1);
}

#[test]
fn collapse_falls_back_to_the_last_state_with_mass() {
    // The sum stops at 0.5 and never gets above 0.75: the reserve is state 1,
    // the last with a probability other than zero.
    let half = Complex::new(0.5f32, 0.0);
    let reg = QuantumRegister::<f32, 4>::from_vector(vec![
        half,
        half,
        Complex::zero(),
        Complex::zero(),
    ])
    .unwrap();
    assert!(!reg.is_valid());
    assert_eq!(reg.collapse_with_target(0.75).unwrap().bits, 1);
    // A variate that is not a number compares above nothing.
    assert_eq!(bell_state().collapse_with_target(f32::NAN).unwrap().bits, 3);
}

#[test]
fn register_without_mass_has_no_outcome() {
    let reg = QuantumRegister::<f32, 2>::from_vector(vec![Complex::zero(), Complex::zero()])
        .unwrap();
    assert_eq!(reg.collapse_with_target(0.5), None);
}

#[test]
fn from_vector_checks_the_dimension() {
    assert_eq!(
        QuantumRegister::<f32, 4>::from_vector(vec![Complex::one()]),
        Err(QuantumError::DimensionMismatch)
    );
    assert_eq!(
        QuantumRegister::<f32, 512>::from_vector(vec![Complex::zero(); 512]),
        Err(QuantumError::DimensionMismatch)
    );
    assert_eq!(
        QuantumRegister::<f32, 3>::from_vector(vec![Complex::zero(); 3]),
        Err(QuantumError::DimensionMismatch)
    );
    let amps = vec![Complex::new(0.6f32, 0.0), Complex::new(0.0, 0.8)];
    let reg = QuantumRegister::<f32, 2>::from_vector(amps.clone()).unwrap();
    assert_eq!(reg.amplitude(1), Complex::new(0.0, 0.8));
    assert_eq!(reg.clone().into_vector(), amps);
}

#[test]
fn from_classical_checks_the_pattern() {
    assert_eq!(
        QuantumRegister::<f32, 4>::from_classical(ClassicalRegister { bits: 4 }),
        Err(QuantumError::DimensionMismatch)
    );
    assert_eq!(
        QuantumRegister::<f32, 6>::from_classical(ClassicalRegister { bits: 1 }),
        Err(QuantumError::DimensionMismatch)
    );
    let reg = QuantumRegister::<f32, 4>::from_classical(ClassicalRegister { bits: 3 }).unwrap();
    assert_eq!(
        reg.into_vector(),
        vec![
            Complex::zero(),
            Complex::zero(),
            Complex::zero(),
            Complex::one()
        ]
    );
}

#[test]
fn tensor_product_of_two_qubits() {
    let a = Qubit::new(Complex::new(0.6f32, 0.0), Complex::new(0.8, 0.0)).unwrap();
    let b = Qubit::new(Complex::new(0.0f32, 1.0), Complex::zero()).unwrap();
    let reg = QuantumRegister::from_2_qubits(a, b);
    assert_eq!(
        reg.into_vector(),
        vec![
            Complex::new(0.0, 0.6),
            Complex::new(0.0, 0.0),
            Complex::new(0.0, 0.8),
            Complex::new(0.0, 0.0)
        ]
    );
    let single = QuantumRegister::from_qubit(a);
    assert_eq!(
        single.into_vector(),
        vec![Complex::new(0.6, 0.0), Complex::new(0.8, 0.0)]
    );
}

#[test]
fn registers_are_normalized() {
    assert!(bell_state().is_valid());
    for k in 0..4u8 {
        assert!(QuantumRegister::<f32, 4>::from_classical(k.into())
            .unwrap()
            .is_valid());
    }
    let plus = Qubit::<f32>::plus().unwrap();
    assert!(QuantumRegister::from_2_qubits(plus, plus).is_valid());
}

#[test]
fn collapse_never_lands_on_a_state_without_mass() {
    let s = std::f32::consts::FRAC_1_SQRT_2;
    let registers = [
        vec![
            Complex::zero(),
            Complex::new(s, 0.0),
            Complex::zero(),
            Complex::new(0.0, s),
        ],
        vec![
            Complex::new(0.5f32, 0.0),
            Complex::zero(),
            Complex::new(0.5, 0.5),
            Complex::new(0.0, -0.5),
        ],
        vec![
            Complex::zero(),
            Complex::zero(),
            Complex::new(-1.0, 0.0),
            Complex::zero(),
        ],
    ];
    for amps in registers.iter() {
        let reg = QuantumRegister::<f32, 4>::from_vector(amps.clone()).unwrap();
        for step in 0..1000u32 {
            let target = step as f32 / 1000.0;
            let k = reg.collapse_with_target(target).unwrap().bits as usize;
            assert!(amps[k].mag_square() != 0.0);
        }
        let k = reg.collapse_with_target(0.99999994).unwrap().bits as usize;
        assert!(amps[k].mag_square() != 0.0);
    }
}

#[test]
fn gates_keep_registers_normalized() {
    let plus = Qubit::<f32>::plus().unwrap();
    let minus = Qubit::<f32>::minus().unwrap();
    let one = Qubit::<f32>::one().unwrap();
    let cnot = cnot::<f32>().unwrap();
    let mirrored = cnot.swap().unwrap();
    let mut reg = QuantumRegister::from_2_qubits(h().unwrap().run(plus), minus);
    for _ in 0..50 {
        reg = mirrored.apply(cnot.apply(reg));
        assert!(reg.is_valid());
    }
    let exact = QuantumRegister::from_2_qubits(
        Qubit::<i64>::one().unwrap(),
        -Qubit::<i64>::zero().unwrap(),
    );
    assert!(exact.is_valid());
    let moved = toy_quant::gates::binary::gates::cnot::<i64>()
        .unwrap()
        .apply(exact);
    assert!(moved.is_valid());
    assert_eq!(
        moved.into_vector(),
        vec![
            Complex::zero(),
            Complex::zero(),
            Complex::zero(),
            Complex::new(-1, 0)
        ]
    );
    assert!(QuantumRegister::from_qubit(one).is_valid());
}
