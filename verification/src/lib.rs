//! Platform-agnostic driver for the LIS2MDL three-axis magnetometer.
//!
//! The driver translates high-level operations (initialize, read chip
//! identity, read temperature, read magnetic field) into sequenced bus
//! transactions against named registers, composing payload bytes from
//! typed bit-field sets.

use vstd::prelude::*;

pub mod bits;
pub mod bus;
pub mod error;
pub mod output_data_rate;
pub mod register;

pub use bus::BusOp;
pub use bus::History;
pub use bus::Transport;
pub use error::Error;
pub use output_data_rate::OutputDataRate;

use bits::{
    cfg_a_mask, cfg_b_mask, cfg_c_mask, ConfigurationRegisterABits, ConfigurationRegisterAFlag,
    ConfigurationRegisterBBits, ConfigurationRegisterBFlag, ConfigurationRegisterCBits,
    ConfigurationRegisterCFlag,
};
use output_data_rate::odr_mask;

verus! {

/// Factory-default 7-bit bus address of the device.
pub const DEFAULT_I2C_ADDRESS: u8 = 0x1e;

/// The signed 16-bit value encoded little-endian by the byte pair
/// `(lo, hi)`: low byte first, two's complement.
pub open spec fn i16_le(lo: u8, hi: u8) -> int {
    if hi < 128 {
        lo + 256 * hi
    } else {
        lo + 256 * hi - 65536
    }
}

/// Decodes a little-endian byte pair as a signed 16-bit value.
pub fn decode_i16_le(lo: u8, hi: u8) -> (r: i16)
    ensures
        r as int == i16_le(lo, hi),
{
    if hi < 128 {
        lo as i16 + (hi as i16) * 256
    } else {
        lo as i16 + ((hi as i16) - 256) * 256
    }
}

/// Payload written to the Configuration-A register on initialization:
/// temperature compensation enabled, plus the ODR bits encoding `rate`.
pub open spec fn cfg_a_init_byte(rate: OutputDataRate) -> u8 {
    cfg_a_mask(ConfigurationRegisterAFlag::CompTempEn) | odr_mask(rate)
}

/// Payload written to the Configuration-B register on initialization:
/// the low-pass filter enabled, nothing else.
pub open spec fn cfg_b_init_byte() -> u8 {
    cfg_b_mask(ConfigurationRegisterBFlag::Lpf)
}

/// Payload written to the Configuration-C register on initialization:
/// data-ready on pin, interrupt on pin, and block-data-update enabled.
pub open spec fn cfg_c_init_byte() -> u8 {
    cfg_c_mask(ConfigurationRegisterCFlag::DrdyOnPin) | cfg_c_mask(
        ConfigurationRegisterCFlag::IntOnPin,
    ) | cfg_c_mask(ConfigurationRegisterCFlag::Bdu)
}

/// The three ordered write transactions that initialization issues to the
/// device at `address`: Configuration-A, then Configuration-B, then
/// Configuration-C, each a register address followed by one payload byte.
pub open spec fn init_ops(address: u8, rate: OutputDataRate) -> Seq<BusOp> {
    seq![
        BusOp::Write { addr: address, data: seq![register::CFG_REG_A, cfg_a_init_byte(rate)] },
        BusOp::Write { addr: address, data: seq![register::CFG_REG_B, cfg_b_init_byte()] },
        BusOp::Write { addr: address, data: seq![register::CFG_REG_C, cfg_c_init_byte()] },
    ]
}

/// A live, initialized connection to the device: exclusive owner of the bus
/// transport and of the device address until released.
pub struct Lis2mdl<I2c> {
    i2c: I2c,
    address: u8,
}

impl<I2c: Transport> Lis2mdl<I2c> {
    /// The transactions completed through the owned transport so far.
    pub closed spec fn history(&self) -> Seq<BusOp> {
        self.i2c.history()
    }

    /// The 7-bit device address this session talks to.
    pub closed spec fn addr(&self) -> u8 {
        self.address
    }

    /// Initializes the device at `address` behind `i2c`, issuing exactly the
    /// three ordered configuration writes of [`init_ops`]. On the first
    /// transaction failure it aborts and reports a communication error; the
    /// device configuration is then indeterminate and the caller may retry
    /// from scratch. On success the session takes ownership of the transport.
    pub fn new(i2c: I2c, address: u8, rate: OutputDataRate) -> (r: Result<Self, Error>)
        ensures
            r matches Ok(s) ==> s.addr() == address && s.history() == i2c.history() + init_ops(
                address,
                rate,
            ),
            r matches Err(e) ==> e == Error::I2cError,
    {
        let mut bus = i2c;
        let config = ConfigurationRegisterABits::flag(
            ConfigurationRegisterAFlag::CompTempEn,
        ).union(ConfigurationRegisterABits::from_rate(rate));
        let payload_a: [u8; 2] = [register::CFG_REG_A, config.bits()];
        match bus.bus_write(address, payload_a.as_slice()) {
            Ok(_) => {},
            Err(_) => {
                return Err(Error::I2cError);
            },
        }

        let config = ConfigurationRegisterBBits::flag(ConfigurationRegisterBFlag::Lpf);
        let payload_b: [u8; 2] = [register::CFG_REG_B, config.bits()];
        match bus.bus_write(address, payload_b.as_slice()) {
            Ok(_) => {},
            Err(_) => {
                return Err(Error::I2cError);
            },
        }

        let config = ConfigurationRegisterCBits::flag(
            ConfigurationRegisterCFlag::DrdyOnPin,
        ).union(ConfigurationRegisterCBits::flag(ConfigurationRegisterCFlag::IntOnPin)).union(
            ConfigurationRegisterCBits::flag(ConfigurationRegisterCFlag::Bdu),
        );
        let payload_c: [u8; 2] = [register::CFG_REG_C, config.bits()];
        match bus.bus_write(address, payload_c.as_slice()) {
            Ok(_) => {},
            Err(_) => {
                return Err(Error::I2cError);
            },
        }

        proof {
            assert(payload_a@ =~= seq![register::CFG_REG_A, cfg_a_init_byte(rate)]);
            assert(payload_b@ =~= seq![register::CFG_REG_B, cfg_b_init_byte()]);
            assert(payload_c@ =~= seq![register::CFG_REG_C, cfg_c_init_byte()]);
            assert(bus.history() =~= i2c.history() + init_ops(address, rate));
        }
        Ok(Lis2mdl { i2c: bus, address })
    }

    /// Returns ownership of the transport to the caller, consuming the
    /// session. Never fails and issues no bus transaction.
    pub fn release(self) -> (r: I2c)
        ensures
            r.history() == self.history(),
    {
        self.i2c
    }

    /// Reads the identity register with one write-then-read transaction and
    /// returns the raw byte, uninterpreted.
    pub fn get_chip_id(&mut self) -> (r: Result<u8, Error>)
        ensures
            final(self).addr() == old(self).addr(),
            r matches Ok(id) ==> final(self).history() == old(self).history().push(
                BusOp::WriteRead {
                    addr: old(self).addr(),
                    sent: seq![register::WHO_AM_I],
                    received: seq![id],
                },
            ),
            r matches Err(e) ==> e == Error::I2cError,
    {
        let cmd: [u8; 1] = [register::WHO_AM_I];
        match self.i2c.bus_write_read(self.address, cmd.as_slice(), 1) {
            Ok(received) => {
                let id = received[0];
                proof {
                    assert(cmd@ =~= seq![register::WHO_AM_I]);
                    assert(received@ =~= seq![id]);
                }
                Ok(id)
            },
            Err(_) => Err(Error::I2cError),
        }
    }

    /// Reads the two temperature output bytes with one write-then-read
    /// transaction starting at the temperature-low register and decodes them
    /// as a little-endian signed 16-bit value.
    pub fn read_temperature(&mut self) -> (r: Result<i16, Error>)
        ensures
            final(self).addr() == old(self).addr(),
            r matches Ok(t) ==> ({
                let ops = final(self).history();
                &&& ops == old(self).history().push(ops.last())
                &&& ops.last() matches BusOp::WriteRead { addr, sent, received } && addr == old(
                    self,
                ).addr() && sent == seq![register::TEMP_OUT_L_REG] && received.len() == 2 && t
                    as int == i16_le(received[0], received[1])
            }),
            r matches Err(e) ==> e == Error::I2cError,
    {
        let cmd: [u8; 1] = [register::TEMP_OUT_L_REG];
        match self.i2c.bus_write_read(self.address, cmd.as_slice(), 2) {
            Ok(received) => {
                let t = decode_i16_le(received[0], received[1]);
                proof {
                    assert(cmd@ =~= seq![register::TEMP_OUT_L_REG]);
                }
                Ok(t)
            },
            Err(_) => Err(Error::I2cError),
        }
    }

    /// Reads the six magnetometer output bytes with one write-then-read
    /// transaction starting at the X-output-low register and decodes them as
    /// three little-endian signed 16-bit values, in the fixed order X, Y, Z.
    pub fn read_magnetometer_data(&mut self) -> (r: Result<(i16, i16, i16), Error>)
        ensures
            final(self).addr() == old(self).addr(),
            r matches Ok(m) ==> ({
                let ops = final(self).history();
                &&& ops == old(self).history().push(ops.last())
                &&& ops.last() matches BusOp::WriteRead { addr, sent, received } && addr == old(
                    self,
                ).addr() && sent == seq![register::OUTX_L_REG] && received.len() == 6 && m.0
                    as int == i16_le(received[0], received[1]) && m.1 as int == i16_le(
                    received[2],
                    received[3],
                ) && m.2 as int == i16_le(received[4], received[5])
            }),
            r matches Err(e) ==> e == Error::I2cError,
    {
        let cmd: [u8; 1] = [register::OUTX_L_REG];
        match self.i2c.bus_write_read(self.address, cmd.as_slice(), 6) {
            Ok(received) => {
                let x = decode_i16_le(received[0], received[1]);
                let y = decode_i16_le(received[2], received[3]);
                let z = decode_i16_le(received[4], received[5]);
                proof {
                    assert(cmd@ =~= seq![register::OUTX_L_REG]);
                }
                Ok((x, y, z))
            },
            Err(_) => Err(Error::I2cError),
        }
    }
}

} // verus!

