//! Register model and driver logic for the TI ADS1113/ADS1114/ADS1115
//! analog-to-digital converters on an I²C bus.
//!
//! The library decides what goes over the bus: the bits of each register
//! field, the config register word, the bytes of each register transfer and
//! the state the driver keeps between transfers. Performing the transfers on
//! an `embedded_hal` bus is left to the caller.

pub mod bytes;
pub mod config;
pub mod driver;
pub mod fields;

pub use config::{ADS111xConfig, ConfigModel};
pub use driver::{
    conversion_pending, ADSError, RegisterRead, RegisterWrite, SingleShotStep, ADS111x, CONFIG_REGISTER,
    CONVERSION_REGISTER, HI_THRESH_REGISTER, LO_THRESH_REGISTER,
};
pub use fields::{
    ComparatorMode, ComparatorPolarity, ComparatorQueue, DataRate, InputMultiplexer,
    LatchingComparator, Mode, ProgramableGainAmplifier, OSR, OSW,
};
