//! I2S support for the SPI peripheral of STM32 microcontrollers (SPI version 1.2).
//!
//! This library is normally used through a MCU HAL library providing types that implement
//! [`I2sPeripheral`]. An [`I2sDriver`](driver::I2sDriver) is created around such an object from
//! an [`I2sDriverConfig`](driver::I2sDriverConfig); [`transfer`] offers the same configuration
//! builder for transfer objects.
//!
//! The library computes every register value from a configuration and proves its contracts:
//! the sampling-frequency prescaler calculation, the layout of the configuration and prescaler
//! registers, and the flags that a status snapshot exposes in each role and direction.
use vstd::prelude::*;

pub mod driver;
pub mod freq;
pub mod marker;
pub mod registers;
pub mod transfer;

pub use freq::div_round;
pub use registers::Register;

verus! {

/// Marker trait for the types of this library that users may not implement.
pub trait Sealed {

}

/// An object composed of a SPI device that can be used for I2S communication.
///
/// This trait is meant to be implemented on a type that represents a full SPI device: a SPI
/// peripheral, the pins it uses, and eventually a clock object. The implementing type must own
/// the peripheral, so that no other code accesses its register block.
pub trait I2sPeripheral {
    type WsPin: WsPin;

    /// Get I2s clock source frequency from the I2s device.
    ///
    /// Implementers are allowed to panic in case i2s source frequency is unavailable.
    fn i2s_freq(&self) -> u32;

    /// Get a reference to WS pin.
    fn ws_pin(&self) -> &Self::WsPin;

    /// Get mutable reference to WS pin.
    fn ws_pin_mut(&mut self) -> &mut Self::WsPin;

    /// Reset the peripheral through the rcc register. This must be implemented with atomic
    /// operation through write to bit band region.
    fn rcc_reset(&mut self);

    /// The registers read so far, oldest first. An implementation that is verified gives it a
    /// body of its own.
    open spec fn reads(&self) -> Seq<Register> {
        arbitrary()
    }

    /// The register writes made so far, oldest first. An implementation that is verified gives
    /// it a body of its own.
    open spec fn writes(&self) -> Seq<(Register, u16)> {
        arbitrary()
    }

    /// Read a register of the peripheral. Reading the status or the data register may clear
    /// flags in hardware.
    fn read_register(&mut self, register: Register) -> (r: u16)
        ensures
            final(self).reads() == old(self).reads().push(register),
            final(self).writes() == old(self).writes(),
    ;

    /// Write a register of the peripheral.
    fn write_register(&mut self, register: Register, value: u16)
        ensures
            final(self).writes() == old(self).writes().push((register, value)),
            final(self).reads() == old(self).reads(),
    ;
}

/// An object that can be used for full duplex I2S communication.
///
/// This trait is meant to be implemented on a type that represents a device supporting full
/// duplex I2S operation: a SPI peripheral with I2S support, the corresponding I2SEXT peripheral,
/// the pins used by them, and eventually a clock object. The implementing type must own both
/// peripherals.
pub trait DualI2sPeripheral {
    type WsPin: WsPin;

    /// Get I2s clock source frequency from the I2s device.
    ///
    /// Implementers are allowed to panic in case i2s source frequency is unavailable.
    fn i2s_freq(&self) -> u32;

    /// Get a reference to WS pin.
    fn ws_pin(&self) -> &Self::WsPin;

    /// Get mutable reference to WS pin.
    fn ws_pin_mut(&mut self) -> &mut Self::WsPin;

    /// Reset the peripheral through the rcc register. This must be implemented with atomic
    /// operation through write to bit band region.
    fn rcc_reset(&mut self);

    /// Read a register of the main SPI peripheral.
    fn read_main_register(&mut self, register: Register) -> u16;

    /// Write a register of the main SPI peripheral.
    fn write_main_register(&mut self, register: Register, value: u16);

    /// Read a register of the I2SEXT peripheral.
    fn read_ext_register(&mut self, register: Register) -> u16;

    /// Write a register of the I2SEXT peripheral.
    fn write_ext_register(&mut self, register: Register, value: u16);
}

/// A pin carrying WS signal from/to an i2s peripheral.
///
/// Implementing this trait means implementing read operation on a pin physically configured in
/// alternate mode.
pub trait WsPin {
    /// Return `true` if the level at WS pin is low.
    fn is_low(&self) -> bool;

    /// Return `true` if the level at WS pin is high.
    fn is_high(&self) -> bool;
}

} // verus!
