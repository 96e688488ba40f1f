//! Output data rate: the supported sampling frequencies and their encoding
//! into the two ODR bits of the Configuration-A register.

use vstd::prelude::*;

verus! {

/// Supported sampling frequencies.
#[derive(Clone, Copy, Debug, PartialEq, Eq, Structural)]
pub enum OutputDataRate {
    Hz10,
    Hz20,
    Hz50,
    Hz100,
}

/// The Configuration-A byte holding exactly the two ODR bits that encode
/// `rate`: ODR0 is bit 2, ODR1 is bit 3.
pub open spec fn odr_mask(rate: OutputDataRate) -> u8 {
    match rate {
        OutputDataRate::Hz10 => 0x00,
        OutputDataRate::Hz20 => 0x04,
        OutputDataRate::Hz50 => 0x08,
        OutputDataRate::Hz100 => 0x0C,
    }
}

/// The documented two-bit ODR pattern for `rate`: 10 Hz is 0b00, 20 Hz is
/// 0b01 (ODR0), 50 Hz is 0b10 (ODR1), 100 Hz is 0b11.
pub open spec fn odr_pattern(rate: OutputDataRate) -> u8 {
    match rate {
        OutputDataRate::Hz10 => 0b00,
        OutputDataRate::Hz20 => 0b01,
        OutputDataRate::Hz50 => 0b10,
        OutputDataRate::Hz100 => 0b11,
    }
}

/// Law: for every rate, the encoded Configuration-A ODR bits carry exactly
/// the documented two-bit pattern in bit positions 3 and 2, set no other bit,
/// and determine the rate uniquely, so encoding round-trips.
pub proof fn lemma_odr_round_trip(rate: OutputDataRate)
    ensures
        odr_mask(rate) >> 2 == odr_pattern(rate),
        odr_mask(rate) & !0b0000_1100u8 == 0,
        forall|other: OutputDataRate| odr_mask(other) == odr_mask(rate) ==> other == rate,
{
    assert(0x00u8 >> 2 == 0b00 && 0x00u8 & !0b0000_1100u8 == 0) by (bit_vector);
    assert(0x04u8 >> 2 == 0b01 && 0x04u8 & !0b0000_1100u8 == 0) by (bit_vector);
    assert(0x08u8 >> 2 == 0b10 && 0x08u8 & !0b0000_1100u8 == 0) by (bit_vector);
    assert(0x0Cu8 >> 2 == 0b11 && 0x0Cu8 & !0b0000_1100u8 == 0) by (bit_vector);
}

} // verus!
