use lis2mdl::bits::{
    ConfigurationRegisterABits, ConfigurationRegisterAFlag, ConfigurationRegisterBBits,
    ConfigurationRegisterBFlag, ConfigurationRegisterCBits, ConfigurationRegisterCFlag,
    IntSourceRegBits, InterruptControlRegBits, StatusRegBits,
};

#[test]
fn configuration_register_a() {
    let register_a = ConfigurationRegisterABits::default();
    assert_eq!(register_a.bits(), 0b0000_0011);

    let register_a = ConfigurationRegisterABits::flag(ConfigurationRegisterAFlag::Lp).union(
        ConfigurationRegisterABits::flag(ConfigurationRegisterAFlag::CompTempEn),
    );
    assert_eq!(register_a.bits(), 0b1001_0000);

    let md = ConfigurationRegisterABits::flag(ConfigurationRegisterAFlag::Md0)
        .union(ConfigurationRegisterABits::flag(ConfigurationRegisterAFlag::Md1));
    assert_eq!(md.bits(), 0b0000_0011);

    let reg_a = ConfigurationRegisterABits::from_bits(0b0000_0010).unwrap();
    assert!(reg_a == ConfigurationRegisterABits::flag(ConfigurationRegisterAFlag::Md1));
}

#[test]
fn odr_bits_round_trip_documented_patterns() {
    let encodings = [
        (lis2mdl::OutputDataRate::Hz10, 0b00u8),
        (lis2mdl::OutputDataRate::Hz20, 0b01u8),
        (lis2mdl::OutputDataRate::Hz50, 0b10u8),
        (lis2mdl::OutputDataRate::Hz100, 0b11u8),
    ];
    for (rate, pattern) in encodings {
        let bits = ConfigurationRegisterABits::from_rate(rate).bits();
        // Exactly the two ODR bits are used, and they carry the pattern.
        assert_eq!(bits >> 2, pattern);
        assert_eq!(bits & !0b0000_1100, 0);
    }
}

#[test]
fn disjoint_flag_union_composes_and_decomposes() {
    let bdu = ConfigurationRegisterCBits::flag(ConfigurationRegisterCFlag::Bdu);
    let drdy = ConfigurationRegisterCBits::flag(ConfigurationRegisterCFlag::DrdyOnPin);
    let both = bdu.union(drdy);
    // The union is the bitwise OR of the individual values.
    assert_eq!(both.bits(), bdu.bits() | drdy.bits());
    assert_eq!(both.bits(), 0b0001_0001);
    // Containment reports both flags present and no others.
    assert!(both.contains(bdu));
    assert!(both.contains(drdy));
    assert!(!both.contains(ConfigurationRegisterCBits::flag(ConfigurationRegisterCFlag::Ble)));
    assert!(!both.contains(ConfigurationRegisterCBits::flag(ConfigurationRegisterCFlag::I2cDis)));
    assert!(!both.contains(ConfigurationRegisterCBits::flag(
        ConfigurationRegisterCFlag::IntOnPin
    )));
    assert!(!both.contains(ConfigurationRegisterCBits::flag(ConfigurationRegisterCFlag::W4spi)));
    assert!(!both.contains(ConfigurationRegisterCBits::flag(
        ConfigurationRegisterCFlag::SelfTest
    )));
    // The intersection of the disjoint flags is empty.
    assert_eq!(bdu.intersection(drdy).bits(), 0);
}

#[test]
fn family_defaults() {
    assert_eq!(ConfigurationRegisterABits::default().bits(), 0b0000_0011);
    assert_eq!(InterruptControlRegBits::default().bits(), 0b1110_0000);
    assert_eq!(ConfigurationRegisterBBits::default().bits(), 0b0000_0000);
    assert_eq!(ConfigurationRegisterCBits::default().bits(), 0b0000_0000);
    assert_eq!(IntSourceRegBits::default().bits(), 0b0000_0000);
    assert_eq!(StatusRegBits::default().bits(), 0b0000_0000);
}

#[test]
fn from_bits_rejects_unrecognized_positions() {
    // Configuration-B recognizes only the five lowest bits.
    assert!(ConfigurationRegisterBBits::from_bits(0b0010_0000).is_none());
    assert!(ConfigurationRegisterBBits::from_bits(0b0001_1111).is_some());
    // Configuration-C recognizes only the seven lowest bits.
    assert!(ConfigurationRegisterCBits::from_bits(0b1000_0000).is_none());
    assert_eq!(
        ConfigurationRegisterCBits::from_bits(0b0101_0101).unwrap().bits(),
        0b0101_0101
    );
    // Interrupt-control does not recognize bits 3 and 4.
    assert!(InterruptControlRegBits::from_bits(0b0000_1000).is_none());
    assert!(InterruptControlRegBits::from_bits(0b0001_0000).is_none());
    assert!(InterruptControlRegBits::from_bits(0b1110_0111).is_some());
}

#[test]
fn empty_sets_have_no_bits() {
    assert_eq!(ConfigurationRegisterABits::empty().bits(), 0);
    assert_eq!(ConfigurationRegisterBBits::empty().bits(), 0);
    assert_eq!(ConfigurationRegisterCBits::empty().bits(), 0);
    assert_eq!(InterruptControlRegBits::empty().bits(), 0);
    assert_eq!(IntSourceRegBits::empty().bits(), 0);
    assert_eq!(StatusRegBits::empty().bits(), 0);
}
