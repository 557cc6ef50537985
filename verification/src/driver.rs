use vstd::prelude::*;

use crate::bytes::{be_value, i16_to_be_bytes, twos_complement, u16_from_be_bytes, u16_to_be_bytes};
use crate::config::{ADS111xConfig, ConfigModel};
use crate::fields::{lemma_field_decoders, InputMultiplexer, OSR, OSW};

verus! {

/// Pointer value of the conversion register.
pub const CONVERSION_REGISTER: u8 = 0b00;

/// Pointer value of the config register.
pub const CONFIG_REGISTER: u8 = 0b01;

/// Pointer value of the low threshold register.
pub const LO_THRESH_REGISTER: u8 = 0b10;

/// Pointer value of the high threshold register.
pub const HI_THRESH_REGISTER: u8 = 0b11;

#[derive(Debug, Clone, Copy, PartialEq, Eq, Structural)]
pub enum ADSError {
    WrongAddress,
    ModeSetToSingle,
}

/// The four I²C addresses that the ADDR pin can give the device.
pub open spec fn valid_address(address: u8) -> bool {
    address == 0x48 || address == 0x49 || address == 0x4a || address == 0x4b
}

/// The bytes that write a 16-bit value to a register: the pointer, then the
/// value most significant byte first.
pub open spec fn register_write_bytes(register: u8, value: int) -> Seq<u8> {
    seq![register, (value / 256) as u8, (value % 256) as u8]
}

/// A write on the bus: the device address and the bytes sent, pointer first.
#[derive(Debug, Clone, Copy)]
pub struct RegisterWrite {
    pub address: u8,
    pub bytes: [u8; 3],
}

/// A register read on the bus: the device address and the pointer written
/// before the two bytes of the register are read back.
#[derive(Debug, Clone, Copy)]
pub struct RegisterRead {
    pub address: u8,
    pub pointer: [u8; 1],
}

/// The transfer that follows a reply of the config register while
/// `read_single_voltage` waits for its conversion.
#[derive(Debug, Clone, Copy)]
pub enum SingleShotStep {
    /// The conversion is still in progress: read the config register again.
    Poll(RegisterRead),
    /// The conversion is done: read its result, and stop.
    ReadResult(RegisterRead),
}

/// Driver state of one ADS111x: the bus it is reached over, its address and
/// the configuration that the host keeps for it.
pub struct ADS111x<I2C> {
    i2c: I2C,
    address: u8,
    config: ADS111xConfig,
}

impl<I2C> ADS111x<I2C> {
    /// A driver is well formed when its address is one the device answers to:
    /// construction checks it and every change of address checks it again.
    pub open spec fn wf(self) -> bool {
        valid_address(self.addr())
    }

    /// The bus the driver owns.
    pub closed spec fn bus(self) -> I2C {
        self.i2c
    }

    /// The device address the driver talks to.
    pub closed spec fn addr(self) -> u8 {
        self.address
    }

    /// The configuration the driver keeps for the device.
    pub closed spec fn settings(self) -> ConfigModel {
        self.config@
    }

    /// The read of the config register at the driver's address.
    pub open spec fn spec_status_read(self) -> RegisterRead {
        RegisterRead { address: self.addr(), pointer: [CONFIG_REGISTER] }
    }

    /// The read of the conversion register at the driver's address.
    pub open spec fn spec_conversion_read(self) -> RegisterRead {
        RegisterRead { address: self.addr(), pointer: [CONVERSION_REGISTER] }
    }

    /// Create a new ADS111x instance with the specified configuration
    /// Note: This only creates the instance, it doesn't write the configuration to the chip
    pub fn new(i2c: I2C, address: u8, config: ADS111xConfig) -> (r: Result<Self, ADSError>)
        ensures
            r is Ok <==> valid_address(address),
            r matches Ok(d) ==> d.wf() && d.bus() == i2c && d.addr() == address && d.settings() == config@,
            r matches Err(e) ==> e == ADSError::WrongAddress,
    {
        Self::check_address(address)?;

        Ok(ADS111x { i2c, address, config })
    }

    /// Destroys the driver instance and returns the I²C bus instance.
    pub fn destroy(self) -> (r: I2C)
        ensures
            r == self.bus(),
    {
        self.i2c
    }

    pub fn check_address(address: u8) -> (r: Result<(), ADSError>)
        ensures
            r == if valid_address(address) {
                Ok::<(), ADSError>(())
            } else {
                Err(ADSError::WrongAddress)
            },
    {
        match address {
            0b1001000 => {},
            0b1001001 => {},
            0b1001010 => {},
            0b1001011 => {},
            _ => return Err(ADSError::WrongAddress),
        }

        Ok(())
    }

    /// The bus, for the transfers that the driver prepares.
    pub fn bus_mut(&mut self) -> (r: &mut I2C)
        ensures
            *r == old(self).bus(),
            final(self).bus() == *final(r),
            final(self).addr() == old(self).addr(),
            final(self).settings() == old(self).settings(),
    {
        &mut self.i2c
    }
    /// The part of `write_config` that decides what is sent: takes the new
    /// configuration if one is given, leaves the status to write idle, and
    /// returns the write of the config register that applies it. Writing it
    /// again with no new configuration sends the same bytes again.
    pub fn config_write(&mut self, config: Option<ADS111xConfig>) -> (r: RegisterWrite)
        ensures
            final(self).settings() == (ConfigModel {
                osw: OSW::Idle,
                ..match config {
                    Some(c) => c@,
                    None => old(self).settings(),
                }
            }),
            final(self).bus() == old(self).bus(),
            final(self).addr() == old(self).addr(),
            r.address == old(self).addr(),
            r.bytes@ == register_write_bytes(CONFIG_REGISTER, final(self).settings().spec_bits() as int),
    {
        if let Some(conf) = config {
            self.config = conf;
        }
        self.config = self.config.with_osw(OSW::Idle);
        let conf = u16_to_be_bytes(self.config.bits());
        RegisterWrite { address: self.address, bytes: [CONFIG_REGISTER, conf[0], conf[1]] }
    }

    /// The part of `read_config` that precedes the transfer: leaves the status
    /// to write idle and returns the read of the config register. The bytes
    /// read back decode with `ADS111xConfig::from_register_bytes`.
    pub fn config_read(&mut self) -> (r: RegisterRead)
        ensures
            final(self).settings() == (ConfigModel { osw: OSW::Idle, ..old(self).settings() }),
            final(self).bus() == old(self).bus(),
            final(self).addr() == old(self).addr(),
            r.address == old(self).addr(),
            r.pointer@ == seq![CONFIG_REGISTER],
    {
        self.config = self.config.with_osw(OSW::Idle);
        RegisterRead { address: self.address, pointer: [CONFIG_REGISTER] }
    }

    /// The first step of `read_single_voltage`: switches to the given address
    /// after checking it and to the given input, then returns the write of the
    /// config register that starts a single conversion. The config register is
    /// read back in the same transfer. An address the device cannot have is
    /// refused before anything changes.
    pub fn single_shot_start(&mut self, address: Option<u8>, mux: Option<InputMultiplexer>) -> (r:
        Result<RegisterWrite, ADSError>)
        ensures
            r is Err <==> (address matches Some(a) && !valid_address(a)),
            r matches Err(e) ==> e == ADSError::WrongAddress && *final(self) == *old(self),
            r matches Ok(w) ==> {
                &&& final(self).addr() == match address {
                    Some(a) => a,
                    None => old(self).addr(),
                }
                &&& final(self).settings() == (ConfigModel {
                    osw: OSW::StartConversion,
                    mux: match mux {
                        Some(m) => m,
                        None => old(self).settings().mux,
                    },
                    ..old(self).settings()
                })
                &&& final(self).bus() == old(self).bus()
                &&& w.address == final(self).addr()
                &&& w.bytes@ == register_write_bytes(
                    CONFIG_REGISTER,
                    final(self).settings().spec_bits() as int,
                )
            },
            old(self).wf() ==> final(self).wf(),
    {
        if let Some(a) = address {
            Self::check_address(a)?;
            self.address = a;
        }
        if let Some(m) = mux {
            self.config = self.config.mux(m);
        }
        self.config = self.config.with_osw(OSW::StartConversion);
        let config = u16_to_be_bytes(self.config.bits());
        Ok(RegisterWrite { address: self.address, bytes: [CONFIG_REGISTER, config[0], config[1]] })
    }

    /// The read of the config register that `read_single_voltage` repeats
    /// while the conversion it started is in progress.
    pub fn status_read(&self) -> (r: RegisterRead)
        ensures
            r == self.spec_status_read(),
            r.address == self.addr(),
            r.pointer@ == seq![CONFIG_REGISTER],
    {
        RegisterRead { address: self.address, pointer: [CONFIG_REGISTER] }
    }

    /// The next transfer of `read_single_voltage` once the config register has
    /// replied `conf`, to the start of the conversion or to a poll: while the
    /// reply reports the conversion in progress the register is read again, and
    /// the first reply that reports it done is followed by the read of the
    /// result, after which nothing more is sent.
    pub fn single_shot_next(&self, conf: [u8; 2]) -> (r: SingleShotStep)
        ensures
            r == if OSR::spec_from_bits(be_value(conf[0], conf[1]) as u16)
                == OSR::PerformingConversion {
                SingleShotStep::Poll(self.spec_status_read())
            } else {
                SingleShotStep::ReadResult(self.spec_conversion_read())
            },
            r == if conf[0] < 0x80 {
                SingleShotStep::Poll(self.spec_status_read())
            } else {
                SingleShotStep::ReadResult(self.spec_conversion_read())
            },
    {
        if conversion_pending(conf) {
            SingleShotStep::Poll(self.status_read())
        } else {
            SingleShotStep::ReadResult(self.conversion_read())
        }
    }

    /// The read of the conversion register that `read_voltage` makes. The bytes
    /// read back hold the result in two's complement, most significant first.
    pub fn conversion_read(&self) -> (r: RegisterRead)
        ensures
            r == self.spec_conversion_read(),
            r.address == self.addr(),
            r.pointer@ == seq![CONVERSION_REGISTER],
    {
        RegisterRead { address: self.address, pointer: [CONVERSION_REGISTER] }
    }

    /// The full-scale range, in millivolts, of the gain the driver is configured
    /// with: `read_voltage` scales a conversion result of 32768 to it.
    pub fn full_scale_millivolts(&self) -> (r: u16)
        ensures
            r == self.settings().pga.spec_full_scale_millivolts(),
    {
        self.config.gain().full_scale_millivolts()
    }

    /// The write of the low threshold register that `set_low_treshold` makes.
    pub fn low_threshold_write(&self, low_tresh: i16) -> (r: RegisterWrite)
        ensures
            r.address == self.addr(),
            r.bytes@ == register_write_bytes(LO_THRESH_REGISTER, twos_complement(low_tresh)),
    {
        let lt = i16_to_be_bytes(low_tresh);
        RegisterWrite { address: self.address, bytes: [LO_THRESH_REGISTER, lt[0], lt[1]] }
    }

    /// The write of the high threshold register that `set_high_treshold` makes.
    pub fn high_threshold_write(&self, high_tresh: i16) -> (r: RegisterWrite)
        ensures
            r.address == self.addr(),
            r.bytes@ == register_write_bytes(HI_THRESH_REGISTER, twos_complement(high_tresh)),
    {
        let ht = i16_to_be_bytes(high_tresh);
        RegisterWrite { address: self.address, bytes: [HI_THRESH_REGISTER, ht[0], ht[1]] }
    }
}

/// Whether the two config register bytes read while a single conversion runs
/// report it still in progress: `read_single_voltage` reads the register again
/// while they do, and reads the result once they do not.
pub fn conversion_pending(conf: [u8; 2]) -> (r: bool)
    ensures
        r == (OSR::spec_from_bits(be_value(conf[0], conf[1]) as u16) == OSR::PerformingConversion),
        r == (conf[0] < 0x80),
{
    proof {
        lemma_field_decoders(be_value(conf[0], conf[1]) as u16);
    }
    match OSR::from_bits(u16_from_be_bytes(conf)) {
        OSR::PerformingConversion => true,
        OSR::DeviceIdle => false,
    }
}

} // verus!
