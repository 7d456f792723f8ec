use toy_quant::registers::classical::ClassicalRegister;

#[test]
fn from_bit_array() {
    let x = ClassicalRegister::from_bools(&[true, true, false, false, true, false, true]).unwrap();
    assert_eq!(x.bits, 0b1010011);

    let y = ClassicalRegister::from_bools(&[true; 0]).unwrap();
    assert_eq!(y.bits, 0);

    let z = ClassicalRegister::from_bools(&[true; 8]).unwrap();
    assert_eq!(z.bits, std::u8::MAX);

    let a = ClassicalRegister::from_bools(&[false; 8]).unwrap();
    assert_eq!(a.bits, 0);
}

#[test]
fn index() {
    let reg = ClassicalRegister {
        // -----76543210
        bits: 0b11001110,
    };
    assert_eq!(reg.index(0), false);
    assert_eq!(reg.index(1), true);
    assert_eq!(reg.index(2), true);
    assert_eq!(reg.index(3), true);
    assert_eq!(reg.index(4), false);
    assert_eq!(reg.index(5), false);
    assert_eq!(reg.index(6), true);
    assert_eq!(reg.index(7), true);
}

#[test]
fn set_index() {
    let mut reg = ClassicalRegister { bits: 0 };
    reg.set(1, true);
    reg.set(3, true);
    reg.set(7, true);
    reg.set(2, false);
    reg.set(0, false);
    // --------------------76543210
    assert_eq!(reg.bits, 0b10001010);
    reg.set(7, false);
    reg.set(0, true);
    // --------------------76543210
    assert_eq!(reg.bits, 0b00001011);
    reg.set(6, true);
    reg.set(1, false);
    reg.set(1, true);
    reg.set(1, false);
    reg.set(6, false);
    reg.set(1, true);
    reg.set(0, false);
    reg.set(6, true);
    // --------------------76543210
    assert_eq!(reg.bits, 0b01001010);
}

#[test]
#[should_panic]
fn from_overfull_iter() {
    let _ = ClassicalRegister::from_bools(&[true; 9]).unwrap();
}

#[test]
fn nine_bits_overflow() {
    assert_eq!(
        ClassicalRegister::from_bools(&[true; 9]),
        Err(toy_quant::error::QuantumError::Overflow)
    );
    assert_eq!(
        ClassicalRegister::from_bools(&[false; 200]),
        Err(toy_quant::error::QuantumError::Overflow)
    );
}

#[test]
fn packing_round_trip() {
    let patterns: [&[bool]; 5] = [
        &[],
        &[true],
        &[false, true, true],
        &[true, false, false, true, false, true, true, false],
        &[true, true, true, true, true, true, true, true],
    ];
    for bools in patterns.iter() {
        let reg = ClassicalRegister::from_bools(bools).unwrap();
        for i in 0..8u8 {
            let expected = (i as usize) < bools.len() && bools[i as usize];
            assert_eq!(reg.index(i), expected);
        }
    }
}

#[test]
fn set_touches_one_bit_only() {
    for index in 0..8u8 {
        let mut reg = ClassicalRegister { bits: 0b0101_1010 };
        reg.set(index, true);
        assert_eq!(reg.bits, 0b0101_1010 | (1 << index));
        let mut reg = ClassicalRegister { bits: 0b0101_1010 };
        reg.set(index, false);
        assert_eq!(reg.bits, 0b0101_1010 & !(1u8 << index));
    }
}

#[test]
fn register_from_byte() {
    let reg: ClassicalRegister = 0b1000_0001.into();
    assert_eq!(reg.bits, 129);
    assert!(reg.index(0) && reg.index(7) && !reg.index(3));
}
