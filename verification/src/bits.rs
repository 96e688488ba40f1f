//! Typed bit-field sets, one per multi-purpose device register family.
//!
//! Each family is a closed vocabulary of named single-bit flags packed into
//! one byte. A set supports union, intersection, a containment test and
//! raw-byte conversion; decoding a raw byte rejects any bit outside the
//! family's recognized positions, while encoding accepts any combination of
//! named flags. Bit meanings follow the device's register descriptions.

use vstd::prelude::*;

use crate::output_data_rate::{odr_mask, OutputDataRate};

verus! {

/// Holds when `m` is one of the eight single-bit masks of a byte.
pub open spec fn single_bit(m: u8) -> bool {
    ||| m == 0x80
    ||| m == 0x40
    ||| m == 0x20
    ||| m == 0x10
    ||| m == 0x08
    ||| m == 0x04
    ||| m == 0x02
    ||| m == 0x01
}

/// Two distinct single-bit masks are disjoint, and their union contains each
/// of them.
pub proof fn lemma_two_single_bits(m1: u8, m2: u8)
    by (bit_vector)
    requires
        single_bit(m1),
        single_bit(m2),
        m1 != m2,
    ensures
        m1 & m2 == 0,
        (m1 | m2) & m1 == m1,
        (m1 | m2) & m2 == m2,
{
}

/// The union of two single-bit masks contains no third single-bit mask
/// distinct from both.
pub proof fn lemma_third_bit_absent(m1: u8, m2: u8, m3: u8)
    by (bit_vector)
    requires
        single_bit(m1),
        single_bit(m2),
        single_bit(m3),
        m3 != m1,
        m3 != m2,
    ensures
        (m1 | m2) & m3 == 0,
        (m1 | m2) & m3 != m3,
{
}

/// Flags of the Configuration-A register family.
#[derive(Clone, Copy, Debug, PartialEq, Eq, Structural)]
pub enum ConfigurationRegisterAFlag {
    /// Enables the magnetometer temperature compensation.
    CompTempEn,
    /// Reboots the magnetometer memory content.
    Reboot,
    /// Resets the configuration and user registers; flash registers keep their values.
    SoftRst,
    /// Enables low-power mode instead of high-resolution mode.
    Lp,
    /// High bit of the output data rate configuration.
    Odr1,
    /// Low bit of the output data rate configuration.
    Odr0,
    /// High bit of the mode-of-operation selection.
    Md1,
    /// Low bit of the mode-of-operation selection.
    Md0,
}

/// Bit position of each Configuration-A flag.
pub open spec fn cfg_a_mask(f: ConfigurationRegisterAFlag) -> u8 {
    match f {
        ConfigurationRegisterAFlag::CompTempEn => 0x80,
        ConfigurationRegisterAFlag::Reboot => 0x40,
        ConfigurationRegisterAFlag::SoftRst => 0x20,
        ConfigurationRegisterAFlag::Lp => 0x10,
        ConfigurationRegisterAFlag::Odr1 => 0x08,
        ConfigurationRegisterAFlag::Odr0 => 0x04,
        ConfigurationRegisterAFlag::Md1 => 0x02,
        ConfigurationRegisterAFlag::Md0 => 0x01,
    }
}

/// Union of all bit positions recognized by the Configuration-A family.
pub const CFG_A_FAMILY_MASK: u8 = 0b1111_1111;

/// A set of Configuration-A flags encoded as one register byte.
#[derive(Clone, Copy, Debug, PartialEq, Eq, Structural)]
pub struct ConfigurationRegisterABits {
    bits: u8,
}

impl View for ConfigurationRegisterABits {
    type V = u8;

    closed spec fn view(&self) -> u8 {
        self.bits
    }
}

impl ConfigurationRegisterABits {
    /// The set with no flag: all bit positions clear.
    pub fn empty() -> (r: Self)
        ensures
            r@ == 0,
    {
        Self { bits: 0 }
    }

    /// The set holding exactly the named flag.
    pub fn flag(f: ConfigurationRegisterAFlag) -> (r: Self)
        ensures
            r@ == cfg_a_mask(f),
    {
        match f {
            ConfigurationRegisterAFlag::CompTempEn => Self { bits: 0x80 },
            ConfigurationRegisterAFlag::Reboot => Self { bits: 0x40 },
            ConfigurationRegisterAFlag::SoftRst => Self { bits: 0x20 },
            ConfigurationRegisterAFlag::Lp => Self { bits: 0x10 },
            ConfigurationRegisterAFlag::Odr1 => Self { bits: 0x08 },
            ConfigurationRegisterAFlag::Odr0 => Self { bits: 0x04 },
            ConfigurationRegisterAFlag::Md1 => Self { bits: 0x02 },
            ConfigurationRegisterAFlag::Md0 => Self { bits: 0x01 },
        }
    }

    /// The set holding exactly the two ODR bits that encode `rate`.
    pub fn from_rate(rate: OutputDataRate) -> (r: Self)
        ensures
            r@ == odr_mask(rate),
    {
        match rate {
            OutputDataRate::Hz10 => Self { bits: 0x00 },
            OutputDataRate::Hz20 => Self { bits: 0x04 },
            OutputDataRate::Hz50 => Self { bits: 0x08 },
            OutputDataRate::Hz100 => Self { bits: 0x0C },
        }
    }

    /// Union: the byte whose set bits are those of either operand.
    pub fn union(self, other: Self) -> (r: Self)
        ensures
            r@ == (self@ | other@),
    {
        Self { bits: self.bits | other.bits }
    }

    /// Intersection: the byte whose set bits are those of both operands.
    pub fn intersection(self, other: Self) -> (r: Self)
        ensures
            r@ == (self@ & other@),
    {
        Self { bits: self.bits & other.bits }
    }

    /// Containment test: whether every bit of `other` is set in `self`.
    pub fn contains(self, other: Self) -> (r: bool)
        ensures
            r == (self@ & other@ == other@),
    {
        self.bits & other.bits == other.bits
    }

    /// The raw register byte this set encodes.
    pub fn bits(self) -> (r: u8)
        ensures
            r == self@,
    {
        self.bits
    }

    /// Decodes a raw register byte, rejecting any bit outside the family's
    /// recognized positions.
    pub fn from_bits(bits: u8) -> (r: Option<Self>)
        ensures
            r is Some <==> bits & !CFG_A_FAMILY_MASK == 0,
            r matches Some(v) ==> v@ == bits,
    {
        if bits & !CFG_A_FAMILY_MASK == 0 {
            Some(Self { bits })
        } else {
            None
        }
    }
}

impl Default for ConfigurationRegisterABits {
    /// Power-on default: both mode-of-operation bits set (continuous mode).
    fn default() -> (r: Self)
        ensures
            r@ == 0b0000_0011,
    {
        Self { bits: 0b0000_0011 }
    }
}

/// Law: the union of two distinct Configuration-A flags equals the bitwise OR
/// of their masks, contains both flags, and contains no other flag of the
/// family.
pub proof fn lemma_cfg_a_union_exact(
    f1: ConfigurationRegisterAFlag,
    f2: ConfigurationRegisterAFlag,
)
    requires
        f1 != f2,
    ensures
        cfg_a_mask(f1) & cfg_a_mask(f2) == 0,
        (cfg_a_mask(f1) | cfg_a_mask(f2)) & cfg_a_mask(f1) == cfg_a_mask(f1),
        (cfg_a_mask(f1) | cfg_a_mask(f2)) & cfg_a_mask(f2) == cfg_a_mask(f2),
        forall|g: ConfigurationRegisterAFlag|
            g != f1 && g != f2 ==> ({
                let u = cfg_a_mask(f1) | cfg_a_mask(f2);
                u & (#[trigger] cfg_a_mask(g)) == 0 && u & cfg_a_mask(g) != cfg_a_mask(g)
            }),
{
    lemma_two_single_bits(cfg_a_mask(f1), cfg_a_mask(f2));
    assert forall|g: ConfigurationRegisterAFlag|
        g != f1 && g != f2 implies ({
        let u = cfg_a_mask(f1) | cfg_a_mask(f2);
        u & (#[trigger] cfg_a_mask(g)) == 0 && u & cfg_a_mask(g) != cfg_a_mask(g)
    }) by {
        lemma_third_bit_absent(cfg_a_mask(f1), cfg_a_mask(f2), cfg_a_mask(g));
    }
}

/// Flags of the Configuration-B register family.
#[derive(Clone, Copy, Debug, PartialEq, Eq, Structural)]
pub enum ConfigurationRegisterBFlag {
    /// Enables offset cancellation in single measurement mode.
    OffCancOneShot,
    /// Makes the interrupt block check data after the hard-iron correction.
    IntOnDataoff,
    /// Selects the frequency of the set pulse.
    SetFreq,
    /// Enables offset cancellation.
    OffCanc,
    /// Enables the low-pass filter.
    Lpf,
}

/// Bit position of each Configuration-B flag.
pub open spec fn cfg_b_mask(f: ConfigurationRegisterBFlag) -> u8 {
    match f {
        ConfigurationRegisterBFlag::OffCancOneShot => 0x10,
        ConfigurationRegisterBFlag::IntOnDataoff => 0x08,
        ConfigurationRegisterBFlag::SetFreq => 0x04,
        ConfigurationRegisterBFlag::OffCanc => 0x02,
        ConfigurationRegisterBFlag::Lpf => 0x01,
    }
}

/// Union of all bit positions recognized by the Configuration-B family.
pub const CFG_B_FAMILY_MASK: u8 = 0b0001_1111;

/// A set of Configuration-B flags encoded as one register byte.
#[derive(Clone, Copy, Debug, PartialEq, Eq, Structural)]
pub struct ConfigurationRegisterBBits {
    bits: u8,
}

impl View for ConfigurationRegisterBBits {
    type V = u8;

    closed spec fn view(&self) -> u8 {
        self.bits
    }
}

impl ConfigurationRegisterBBits {
    /// The set with no flag: all bit positions clear.
    pub fn empty() -> (r: Self)
        ensures
            r@ == 0,
    {
        Self { bits: 0 }
    }

    /// The set holding exactly the named flag.
    pub fn flag(f: ConfigurationRegisterBFlag) -> (r: Self)
        ensures
            r@ == cfg_b_mask(f),
    {
        match f {
            ConfigurationRegisterBFlag::OffCancOneShot => Self { bits: 0x10 },
            ConfigurationRegisterBFlag::IntOnDataoff => Self { bits: 0x08 },
            ConfigurationRegisterBFlag::SetFreq => Self { bits: 0x04 },
            ConfigurationRegisterBFlag::OffCanc => Self { bits: 0x02 },
            ConfigurationRegisterBFlag::Lpf => Self { bits: 0x01 },
        }
    }

    /// Union: the byte whose set bits are those of either operand.
    pub fn union(self, other: Self) -> (r: Self)
        ensures
            r@ == (self@ | other@),
    {
        Self { bits: self.bits | other.bits }
    }

    /// Intersection: the byte whose set bits are those of both operands.
    pub fn intersection(self, other: Self) -> (r: Self)
        ensures
            r@ == (self@ & other@),
    {
        Self { bits: self.bits & other.bits }
    }

    /// Containment test: whether every bit of `other` is set in `self`.
    pub fn contains(self, other: Self) -> (r: bool)
        ensures
            r == (self@ & other@ == other@),
    {
        self.bits & other.bits == other.bits
    }

    /// The raw register byte this set encodes.
    pub fn bits(self) -> (r: u8)
        ensures
            r == self@,
    {
        self.bits
    }

    /// Decodes a raw register byte, rejecting any bit outside the family's
    /// recognized positions.
    pub fn from_bits(bits: u8) -> (r: Option<Self>)
        ensures
            r is Some <==> bits & !CFG_B_FAMILY_MASK == 0,
            r matches Some(v) ==> v@ == bits,
    {
        if bits & !CFG_B_FAMILY_MASK == 0 {
            Some(Self { bits })
        } else {
            None
        }
    }
}

impl Default for ConfigurationRegisterBBits {
    /// Power-on default: all bit positions clear.
    fn default() -> (r: Self)
        ensures
            r@ == 0b0000_0000,
    {
        Self { bits: 0b0000_0000 }
    }
}

/// Law: the union of two distinct Configuration-B flags equals the bitwise OR
/// of their masks, contains both flags, and contains no other flag of the
/// family.
pub proof fn lemma_cfg_b_union_exact(
    f1: ConfigurationRegisterBFlag,
    f2: ConfigurationRegisterBFlag,
)
    requires
        f1 != f2,
    ensures
        cfg_b_mask(f1) & cfg_b_mask(f2) == 0,
        (cfg_b_mask(f1) | cfg_b_mask(f2)) & cfg_b_mask(f1) == cfg_b_mask(f1),
        (cfg_b_mask(f1) | cfg_b_mask(f2)) & cfg_b_mask(f2) == cfg_b_mask(f2),
        forall|g: ConfigurationRegisterBFlag|
            g != f1 && g != f2 ==> ({
                let u = cfg_b_mask(f1) | cfg_b_mask(f2);
                u & (#[trigger] cfg_b_mask(g)) == 0 && u & cfg_b_mask(g) != cfg_b_mask(g)
            }),
{
    lemma_two_single_bits(cfg_b_mask(f1), cfg_b_mask(f2));
    assert forall|g: ConfigurationRegisterBFlag|
        g != f1 && g != f2 implies ({
        let u = cfg_b_mask(f1) | cfg_b_mask(f2);
        u & (#[trigger] cfg_b_mask(g)) == 0 && u & cfg_b_mask(g) != cfg_b_mask(g)
    }) by {
        lemma_third_bit_absent(cfg_b_mask(f1), cfg_b_mask(f2), cfg_b_mask(g));
    }
}

/// Flags of the Configuration-C register family.
#[derive(Clone, Copy, Debug, PartialEq, Eq, Structural)]
pub enum ConfigurationRegisterCFlag {
    /// Inverts the low and high parts of the output data.
    Ble,
    /// Inhibits the serial bus interface in favour of the alternate interface.
    I2cDis,
    /// Blocks the output-register update between the reads of the low and
    /// high parts, avoiding incoherent data on asynchronous reads.
    Bdu,
    /// Drives the interrupt signal on the interrupt/data-ready pin.
    IntOnPin,
    /// Enables the serial data output line on its alternate pin.
    W4spi,
    /// Enables the self-test.
    SelfTest,
    /// Drives the data-ready signal on the interrupt/data-ready pin.
    DrdyOnPin,
}

/// Bit position of each Configuration-C flag.
pub open spec fn cfg_c_mask(f: ConfigurationRegisterCFlag) -> u8 {
    match f {
        ConfigurationRegisterCFlag::Ble => 0x40,
        ConfigurationRegisterCFlag::I2cDis => 0x20,
        ConfigurationRegisterCFlag::Bdu => 0x10,
        ConfigurationRegisterCFlag::IntOnPin => 0x08,
        ConfigurationRegisterCFlag::W4spi => 0x04,
        ConfigurationRegisterCFlag::SelfTest => 0x02,
        ConfigurationRegisterCFlag::DrdyOnPin => 0x01,
    }
}

/// Union of all bit positions recognized by the Configuration-C family.
pub const CFG_C_FAMILY_MASK: u8 = 0b0111_1111;

/// A set of Configuration-C flags encoded as one register byte.
#[derive(Clone, Copy, Debug, PartialEq, Eq, Structural)]
pub struct ConfigurationRegisterCBits {
    bits: u8,
}

impl View for ConfigurationRegisterCBits {
    type V = u8;

    closed spec fn view(&self) -> u8 {
        self.bits
    }
}

impl ConfigurationRegisterCBits {
    /// The set with no flag: all bit positions clear.
    pub fn empty() -> (r: Self)
        ensures
            r@ == 0,
    {
        Self { bits: 0 }
    }

    /// The set holding exactly the named flag.
    pub fn flag(f: ConfigurationRegisterCFlag) -> (r: Self)
        ensures
            r@ == cfg_c_mask(f),
    {
        match f {
            ConfigurationRegisterCFlag::Ble => Self { bits: 0x40 },
            ConfigurationRegisterCFlag::I2cDis => Self { bits: 0x20 },
            ConfigurationRegisterCFlag::Bdu => Self { bits: 0x10 },
            ConfigurationRegisterCFlag::IntOnPin => Self { bits: 0x08 },
            ConfigurationRegisterCFlag::W4spi => Self { bits: 0x04 },
            ConfigurationRegisterCFlag::SelfTest => Self { bits: 0x02 },
            ConfigurationRegisterCFlag::DrdyOnPin => Self { bits: 0x01 },
        }
    }

    /// Union: the byte whose set bits are those of either operand.
    pub fn union(self, other: Self) -> (r: Self)
        ensures
            r@ == (self@ | other@),
    {
        Self { bits: self.bits | other.bits }
    }

    /// Intersection: the byte whose set bits are those of both operands.
    pub fn intersection(self, other: Self) -> (r: Self)
        ensures
            r@ == (self@ & other@),
    {
        Self { bits: self.bits & other.bits }
    }

    /// Containment test: whether every bit of `other` is set in `self`.
    pub fn contains(self, other: Self) -> (r: bool)
        ensures
            r == (self@ & other@ == other@),
    {
        self.bits & other.bits == other.bits
    }

    /// The raw register byte this set encodes.
    pub fn bits(self) -> (r: u8)
        ensures
            r == self@,
    {
        self.bits
    }

    /// Decodes a raw register byte, rejecting any bit outside the family's
    /// recognized positions.
    pub fn from_bits(bits: u8) -> (r: Option<Self>)
        ensures
            r is Some <==> bits & !CFG_C_FAMILY_MASK == 0,
            r matches Some(v) ==> v@ == bits,
    {
        if bits & !CFG_C_FAMILY_MASK == 0 {
            Some(Self { bits })
        } else {
            None
        }
    }
}

impl Default for ConfigurationRegisterCBits {
    /// Power-on default: all bit positions clear.
    fn default() -> (r: Self)
        ensures
            r@ == 0b0000_0000,
    {
        Self { bits: 0b0000_0000 }
    }
}

/// Law: the union of two distinct Configuration-C flags equals the bitwise OR
/// of their masks, contains both flags, and contains no other flag of the
/// family.
pub proof fn lemma_cfg_c_union_exact(
    f1: ConfigurationRegisterCFlag,
    f2: ConfigurationRegisterCFlag,
)
    requires
        f1 != f2,
    ensures
        cfg_c_mask(f1) & cfg_c_mask(f2) == 0,
        (cfg_c_mask(f1) | cfg_c_mask(f2)) & cfg_c_mask(f1) == cfg_c_mask(f1),
        (cfg_c_mask(f1) | cfg_c_mask(f2)) & cfg_c_mask(f2) == cfg_c_mask(f2),
        forall|g: ConfigurationRegisterCFlag|
            g != f1 && g != f2 ==> ({
                let u = cfg_c_mask(f1) | cfg_c_mask(f2);
                u & (#[trigger] cfg_c_mask(g)) == 0 && u & cfg_c_mask(g) != cfg_c_mask(g)
            }),
{
    lemma_two_single_bits(cfg_c_mask(f1), cfg_c_mask(f2));
    assert forall|g: ConfigurationRegisterCFlag|
        g != f1 && g != f2 implies ({
        let u = cfg_c_mask(f1) | cfg_c_mask(f2);
        u & (#[trigger] cfg_c_mask(g)) == 0 && u & cfg_c_mask(g) != cfg_c_mask(g)
    }) by {
        lemma_third_bit_absent(cfg_c_mask(f1), cfg_c_mask(f2), cfg_c_mask(g));
    }
}

/// Flags of the interrupt-control register family.
#[derive(Clone, Copy, Debug, PartialEq, Eq, Structural)]
pub enum InterruptControlRegFlag {
    /// Enables interrupt detection for the X axis.
    Xien,
    /// Enables interrupt detection for the Y axis.
    Yien,
    /// Enables interrupt detection for the Z axis.
    Zien,
    /// Selects the polarity of the interrupt bit in the interrupt-source register.
    Iea,
    /// Latches the interrupt bit instead of pulsing it.
    Iel,
    /// Enables interrupt generation.
    Ien,
}

/// Bit position of each interrupt-control flag.
pub open spec fn int_ctrl_mask(f: InterruptControlRegFlag) -> u8 {
    match f {
        InterruptControlRegFlag::Xien => 0x80,
        InterruptControlRegFlag::Yien => 0x40,
        InterruptControlRegFlag::Zien => 0x20,
        InterruptControlRegFlag::Iea => 0x04,
        InterruptControlRegFlag::Iel => 0x02,
        InterruptControlRegFlag::Ien => 0x01,
    }
}

/// Union of all bit positions recognized by the interrupt-control family.
pub const INT_CTRL_FAMILY_MASK: u8 = 0b1110_0111;

/// A set of interrupt-control flags encoded as one register byte.
#[derive(Clone, Copy, Debug, PartialEq, Eq, Structural)]
pub struct InterruptControlRegBits {
    bits: u8,
}

impl View for InterruptControlRegBits {
    type V = u8;

    closed spec fn view(&self) -> u8 {
        self.bits
    }
}

impl InterruptControlRegBits {
    /// The set with no flag: all bit positions clear.
    pub fn empty() -> (r: Self)
        ensures
            r@ == 0,
    {
        Self { bits: 0 }
    }

    /// The set holding exactly the named flag.
    pub fn flag(f: InterruptControlRegFlag) -> (r: Self)
        ensures
            r@ == int_ctrl_mask(f),
    {
        match f {
            InterruptControlRegFlag::Xien => Self { bits: 0x80 },
            InterruptControlRegFlag::Yien => Self { bits: 0x40 },
            InterruptControlRegFlag::Zien => Self { bits: 0x20 },
            InterruptControlRegFlag::Iea => Self { bits: 0x04 },
            InterruptControlRegFlag::Iel => Self { bits: 0x02 },
            InterruptControlRegFlag::Ien => Self { bits: 0x01 },
        }
    }

    /// Union: the byte whose set bits are those of either operand.
    pub fn union(self, other: Self) -> (r: Self)
        ensures
            r@ == (self@ | other@),
    {
        Self { bits: self.bits | other.bits }
    }

    /// Intersection: the byte whose set bits are those of both operands.
    pub fn intersection(self, other: Self) -> (r: Self)
        ensures
            r@ == (self@ & other@),
    {
        Self { bits: self.bits & other.bits }
    }

    /// Containment test: whether every bit of `other` is set in `self`.
    pub fn contains(self, other: Self) -> (r: bool)
        ensures
            r == (self@ & other@ == other@),
    {
        self.bits & other.bits == other.bits
    }

    /// The raw register byte this set encodes.
    pub fn bits(self) -> (r: u8)
        ensures
            r == self@,
    {
        self.bits
    }

    /// Decodes a raw register byte, rejecting any bit outside the family's
    /// recognized positions.
    pub fn from_bits(bits: u8) -> (r: Option<Self>)
        ensures
            r is Some <==> bits & !INT_CTRL_FAMILY_MASK == 0,
            r matches Some(v) ==> v@ == bits,
    {
        if bits & !INT_CTRL_FAMILY_MASK == 0 {
            Some(Self { bits })
        } else {
            None
        }
    }
}

impl Default for InterruptControlRegBits {
    /// Power-on default: interrupt detection enabled on all three axes.
    fn default() -> (r: Self)
        ensures
            r@ == 0b1110_0000,
    {
        Self { bits: 0b1110_0000 }
    }
}

/// Law: the union of two distinct interrupt-control flags equals the bitwise
/// OR of their masks, contains both flags, and contains no other flag of the
/// family.
pub proof fn lemma_int_ctrl_union_exact(f1: InterruptControlRegFlag, f2: InterruptControlRegFlag)
    requires
        f1 != f2,
    ensures
        int_ctrl_mask(f1) & int_ctrl_mask(f2) == 0,
        (int_ctrl_mask(f1) | int_ctrl_mask(f2)) & int_ctrl_mask(f1) == int_ctrl_mask(f1),
        (int_ctrl_mask(f1) | int_ctrl_mask(f2)) & int_ctrl_mask(f2) == int_ctrl_mask(f2),
        forall|g: InterruptControlRegFlag|
            g != f1 && g != f2 ==> ({
                let u = int_ctrl_mask(f1) | int_ctrl_mask(f2);
                u & (#[trigger] int_ctrl_mask(g)) == 0 && u & int_ctrl_mask(g) != int_ctrl_mask(g)
            }),
{
    lemma_two_single_bits(int_ctrl_mask(f1), int_ctrl_mask(f2));
    assert forall|g: InterruptControlRegFlag|
        g != f1 && g != f2 implies ({
        let u = int_ctrl_mask(f1) | int_ctrl_mask(f2);
        u & (#[trigger] int_ctrl_mask(g)) == 0 && u & int_ctrl_mask(g) != int_ctrl_mask(g)
    }) by {
        lemma_third_bit_absent(int_ctrl_mask(f1), int_ctrl_mask(f2), int_ctrl_mask(g));
    }
}

/// Flags of the interrupt-source register family.
#[derive(Clone, Copy, Debug, PartialEq, Eq, Structural)]
pub enum IntSourceRegFlag {
    /// The X-axis value exceeds the threshold on the positive side.
    Pthsx,
    /// The Y-axis value exceeds the threshold on the positive side.
    Pthsy,
    /// The Z-axis value exceeds the threshold on the positive side.
    Pthsz,
    /// The X-axis value exceeds the threshold on the negative side.
    Nthsx,
    /// The Y-axis value exceeds the threshold on the negative side.
    Nthsy,
    /// The Z-axis value exceeds the threshold on the negative side.
    Nthsz,
    /// Measurement-range overflow; reset by reading the register.
    Mroi,
    /// Signals that the interrupt event occurred.
    Int,
}

/// Bit position of each interrupt-source flag.
pub open spec fn int_source_mask(f: IntSourceRegFlag) -> u8 {
    match f {
        IntSourceRegFlag::Pthsx => 0x80,
        IntSourceRegFlag::Pthsy => 0x40,
        IntSourceRegFlag::Pthsz => 0x20,
        IntSourceRegFlag::Nthsx => 0x10,
        IntSourceRegFlag::Nthsy => 0x08,
        IntSourceRegFlag::Nthsz => 0x04,
        IntSourceRegFlag::Mroi => 0x02,
        IntSourceRegFlag::Int => 0x01,
    }
}

/// Union of all bit positions recognized by the interrupt-source family.
pub const INT_SOURCE_FAMILY_MASK: u8 = 0b1111_1111;

/// A set of interrupt-source flags encoded as one register byte.
#[derive(Clone, Copy, Debug, PartialEq, Eq, Structural)]
pub struct IntSourceRegBits {
    bits: u8,
}

impl View for IntSourceRegBits {
    type V = u8;

    closed spec fn view(&self) -> u8 {
        self.bits
    }
}

impl IntSourceRegBits {
    /// The set with no flag: all bit positions clear.
    pub fn empty() -> (r: Self)
        ensures
            r@ == 0,
    {
        Self { bits: 0 }
    }

    /// The set holding exactly the named flag.
    pub fn flag(f: IntSourceRegFlag) -> (r: Self)
        ensures
            r@ == int_source_mask(f),
    {
        match f {
            IntSourceRegFlag::Pthsx => Self { bits: 0x80 },
            IntSourceRegFlag::Pthsy => Self { bits: 0x40 },
            IntSourceRegFlag::Pthsz => Self { bits: 0x20 },
            IntSourceRegFlag::Nthsx => Self { bits: 0x10 },
            IntSourceRegFlag::Nthsy => Self { bits: 0x08 },
            IntSourceRegFlag::Nthsz => Self { bits: 0x04 },
            IntSourceRegFlag::Mroi => Self { bits: 0x02 },
            IntSourceRegFlag::Int => Self { bits: 0x01 },
        }
    }

    /// Union: the byte whose set bits are those of either operand.
    pub fn union(self, other: Self) -> (r: Self)
        ensures
            r@ == (self@ | other@),
    {
        Self { bits: self.bits | other.bits }
    }

    /// Intersection: the byte whose set bits are those of both operands.
    pub fn intersection(self, other: Self) -> (r: Self)
        ensures
            r@ == (self@ & other@),
    {
        Self { bits: self.bits & other.bits }
    }

    /// Containment test: whether every bit of `other` is set in `self`.
    pub fn contains(self, other: Self) -> (r: bool)
        ensures
            r == (self@ & other@ == other@),
    {
        self.bits & other.bits == other.bits
    }

    /// The raw register byte this set encodes.
    pub fn bits(self) -> (r: u8)
        ensures
            r == self@,
    {
        self.bits
    }

    /// Decodes a raw register byte, rejecting any bit outside the family's
    /// recognized positions.
    pub fn from_bits(bits: u8) -> (r: Option<Self>)
        ensures
            r is Some <==> bits & !INT_SOURCE_FAMILY_MASK == 0,
            r matches Some(v) ==> v@ == bits,
    {
        if bits & !INT_SOURCE_FAMILY_MASK == 0 {
            Some(Self { bits })
        } else {
            None
        }
    }
}

impl Default for IntSourceRegBits {
    /// Power-on default: all bit positions clear.
    fn default() -> (r: Self)
        ensures
            r@ == 0b0000_0000,
    {
        Self { bits: 0b0000_0000 }
    }
}

/// Law: the union of two distinct interrupt-source flags equals the bitwise
/// OR of their masks, contains both flags, and contains no other flag of the
/// family.
pub proof fn lemma_int_source_union_exact(f1: IntSourceRegFlag, f2: IntSourceRegFlag)
    requires
        f1 != f2,
    ensures
        int_source_mask(f1) & int_source_mask(f2) == 0,
        (int_source_mask(f1) | int_source_mask(f2)) & int_source_mask(f1) == int_source_mask(f1),
        (int_source_mask(f1) | int_source_mask(f2)) & int_source_mask(f2) == int_source_mask(f2),
        forall|g: IntSourceRegFlag|
            g != f1 && g != f2 ==> ({
                let u = int_source_mask(f1) | int_source_mask(f2);
                u & (#[trigger] int_source_mask(g)) == 0 && u & int_source_mask(g) != int_source_mask(g)
            }),
{
    lemma_two_single_bits(int_source_mask(f1), int_source_mask(f2));
    assert forall|g: IntSourceRegFlag|
        g != f1 && g != f2 implies ({
        let u = int_source_mask(f1) | int_source_mask(f2);
        u & (#[trigger] int_source_mask(g)) == 0 && u & int_source_mask(g) != int_source_mask(g)
    }) by {
        lemma_third_bit_absent(int_source_mask(f1), int_source_mask(f2), int_source_mask(g));
    }
}

/// Flags of the status register family.
#[derive(Clone, Copy, Debug, PartialEq, Eq, Structural)]
pub enum StatusRegFlag {
    /// Data overran on the X, Y and Z axes together.
    Zyxor,
    /// Data overran on the Z axis.
    Zor,
    /// Data overran on the Y axis.
    Yor,
    /// Data overran on the X axis.
    Xor,
    /// New data is available on the X, Y and Z axes together.
    Zyxda,
    /// New data is available on the Z axis.
    Zda,
    /// New data is available on the Y axis.
    Yda,
    /// New data is available on the X axis.
    Xda,
}

/// Bit position of each status flag.
pub open spec fn status_mask(f: StatusRegFlag) -> u8 {
    match f {
        StatusRegFlag::Zyxor => 0x80,
        StatusRegFlag::Zor => 0x40,
        StatusRegFlag::Yor => 0x20,
        StatusRegFlag::Xor => 0x10,
        StatusRegFlag::Zyxda => 0x08,
        StatusRegFlag::Zda => 0x04,
        StatusRegFlag::Yda => 0x02,
        StatusRegFlag::Xda => 0x01,
    }
}

/// Union of all bit positions recognized by the status family.
pub const STATUS_FAMILY_MASK: u8 = 0b1111_1111;

/// A set of status flags encoded as one register byte.
#[derive(Clone, Copy, Debug, PartialEq, Eq, Structural)]
pub struct StatusRegBits {
    bits: u8,
}

impl View for StatusRegBits {
    type V = u8;

    closed spec fn view(&self) -> u8 {
        self.bits
    }
}

impl StatusRegBits {
    /// The set with no flag: all bit positions clear.
    pub fn empty() -> (r: Self)
        ensures
            r@ == 0,
    {
        Self { bits: 0 }
    }

    /// The set holding exactly the named flag.
    pub fn flag(f: StatusRegFlag) -> (r: Self)
        ensures
            r@ == status_mask(f),
    {
        match f {
            StatusRegFlag::Zyxor => Self { bits: 0x80 },
            StatusRegFlag::Zor => Self { bits: 0x40 },
            StatusRegFlag::Yor => Self { bits: 0x20 },
            StatusRegFlag::Xor => Self { bits: 0x10 },
            StatusRegFlag::Zyxda => Self { bits: 0x08 },
            StatusRegFlag::Zda => Self { bits: 0x04 },
            StatusRegFlag::Yda => Self { bits: 0x02 },
            StatusRegFlag::Xda => Self { bits: 0x01 },
        }
    }

    /// Union: the byte whose set bits are those of either operand.
    pub fn union(self, other: Self) -> (r: Self)
        ensures
            r@ == (self@ | other@),
    {
        Self { bits: self.bits | other.bits }
    }

    /// Intersection: the byte whose set bits are those of both operands.
    pub fn intersection(self, other: Self) -> (r: Self)
        ensures
            r@ == (self@ & other@),
    {
        Self { bits: self.bits & other.bits }
    }

    /// Containment test: whether every bit of `other` is set in `self`.
    pub fn contains(self, other: Self) -> (r: bool)
        ensures
            r == (self@ & other@ == other@),
    {
        self.bits & other.bits == other.bits
    }

    /// The raw register byte this set encodes.
    pub fn bits(self) -> (r: u8)
        ensures
            r == self@,
    {
        self.bits
    }

    /// Decodes a raw register byte, rejecting any bit outside the family's
    /// recognized positions.
    pub fn from_bits(bits: u8) -> (r: Option<Self>)
        ensures
            r is Some <==> bits & !STATUS_FAMILY_MASK == 0,
            r matches Some(v) ==> v@ == bits,
    {
        if bits & !STATUS_FAMILY_MASK == 0 {
            Some(Self { bits })
        } else {
            None
        }
    }
}

impl Default for StatusRegBits {
    /// Power-on default: all bit positions clear.
    fn default() -> (r: Self)
        ensures
            r@ == 0b0000_0000,
    {
        Self { bits: 0b0000_0000 }
    }
}

/// Law: the union of two distinct status flags equals the bitwise OR of
/// their masks, contains both flags, and contains no other flag of the
/// family.
pub proof fn lemma_status_union_exact(f1: StatusRegFlag, f2: StatusRegFlag)
    requires
        f1 != f2,
    ensures
        status_mask(f1) & status_mask(f2) == 0,
        (status_mask(f1) | status_mask(f2)) & status_mask(f1) == status_mask(f1),
        (status_mask(f1) | status_mask(f2)) & status_mask(f2) == status_mask(f2),
        forall|g: StatusRegFlag|
            g != f1 && g != f2 ==> ({
                let u = status_mask(f1) | status_mask(f2);
                u & (#[trigger] status_mask(g)) == 0 && u & status_mask(g) != status_mask(g)
            }),
{
    lemma_two_single_bits(status_mask(f1), status_mask(f2));
    assert forall|g: StatusRegFlag|
        g != f1 && g != f2 implies ({
        let u = status_mask(f1) | status_mask(f2);
        u & (#[trigger] status_mask(g)) == 0 && u & status_mask(g) != status_mask(g)
    }) by {
        lemma_third_bit_absent(status_mask(f1), status_mask(f2), status_mask(g));
    }
}

} // verus!
