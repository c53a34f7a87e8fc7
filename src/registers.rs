//! Bit layout of the SPI/I2S registers that the driver writes and reads.
use vstd::prelude::*;

use crate::freq::{channel_coef, rate_of, wide_channel};
use crate::driver::{
    ClockPolarity, DataFormat, I2sStandard, SlaveOrMaster, TransmitOrReceive,
};

verus! {

/// One register of the SPI/I2S register block.
#[derive(Debug, Clone, Copy, PartialEq, Eq, Structural)]
pub enum Register {
    /// Control register 1.
    Cr1,
    /// Control register 2: interrupt and DMA request enables.
    Cr2,
    /// Status register.
    Sr,
    /// Data register.
    Dr,
    /// I2S configuration register.
    I2scfgr,
    /// I2S prescaler register.
    I2spr,
}

/// CR2: DMA request on a received sample.
pub const CR2_RXDMAEN: u16 = 0x0001;
/// CR2: DMA request when the transmit buffer is empty.
pub const CR2_TXDMAEN: u16 = 0x0002;
/// CR2: interrupt on error.
pub const CR2_ERRIE: u16 = 0x0020;
/// CR2: interrupt on a received sample.
pub const CR2_RXNEIE: u16 = 0x0040;
/// CR2: interrupt when the transmit buffer is empty.
pub const CR2_TXEIE: u16 = 0x0080;

/// SR: receive buffer not empty.
pub const SR_RXNE: u16 = 0x0001;
/// SR: transmit buffer empty.
pub const SR_TXE: u16 = 0x0002;
/// SR: channel side (set for the right channel).
pub const SR_CHSIDE: u16 = 0x0004;
/// SR: underrun.
pub const SR_UDR: u16 = 0x0008;
/// SR: overrun.
pub const SR_OVR: u16 = 0x0040;
/// SR: busy.
pub const SR_BSY: u16 = 0x0080;
/// SR: frame error.
pub const SR_FRE: u16 = 0x0100;

/// I2SCFGR: channel length, set for 32 bit channels.
pub const I2SCFGR_CHLEN: u16 = 0x0001;
/// I2SCFGR: peripheral enable.
pub const I2SCFGR_I2SE: u16 = 0x0400;
/// I2SCFGR: I2S mode selection (as opposed to SPI).
pub const I2SCFGR_I2SMOD: u16 = 0x0800;

/// I2SPR: odd factor of the prescaler.
pub const I2SPR_ODD: u16 = 0x0100;
/// I2SPR: master clock output enable.
pub const I2SPR_MCKOE: u16 = 0x0200;
/// I2SPR: value after reset (divider of 2, no odd factor, no master clock).
pub const I2SPR_RESET: u16 = 0x0002;

/// True when the bits of `mask` are not all clear in `value`.
pub open spec fn flag(value: u16, mask: u16) -> bool {
    value & mask != 0
}

/// `value` with the bits of `mask` set when `enabled`, cleared otherwise.
pub open spec fn with_bits(value: u16, mask: u16, enabled: bool) -> u16 {
    if enabled {
        value | mask
    } else {
        value & !mask
    }
}

/// Sets or clears the bits of `mask` in `value`.
pub fn set_bits(value: u16, mask: u16, enabled: bool) -> (r: u16)
    ensures
        r == with_bits(value, mask, enabled),
{
    if enabled {
        value | mask
    } else {
        value & !mask
    }
}

/// I2SCFG field (bits 8 and 9): role and direction.
pub open spec fn mode_bits(role: SlaveOrMaster, direction: TransmitOrReceive) -> u16 {
    match (role, direction) {
        (SlaveOrMaster::Slave, TransmitOrReceive::Transmit) => 0x0000,
        (SlaveOrMaster::Slave, TransmitOrReceive::Receive) => 0x0100,
        (SlaveOrMaster::Master, TransmitOrReceive::Transmit) => 0x0200,
        (SlaveOrMaster::Master, TransmitOrReceive::Receive) => 0x0300,
    }
}

/// I2SSTD field (bits 4 and 5) and PCMSYNC bit (bit 7).
pub open spec fn standard_bits(standard: I2sStandard) -> u16 {
    match standard {
        I2sStandard::Philips => 0x0000,
        I2sStandard::Msb => 0x0010,
        I2sStandard::Lsb => 0x0020,
        I2sStandard::PcmShortSync => 0x0030,
        I2sStandard::PcmLongSync => 0x00B0,
    }
}

/// CKPOL bit (bit 3).
pub open spec fn polarity_bits(polarity: ClockPolarity) -> u16 {
    match polarity {
        ClockPolarity::IdleLow => 0x0000,
        ClockPolarity::IdleHigh => 0x0008,
    }
}

/// DATLEN field (bits 1 and 2) and CHLEN bit (bit 0).
pub open spec fn format_bits(format: DataFormat) -> u16 {
    match format {
        DataFormat::Data16Channel16 => 0x0000,
        DataFormat::Data16Channel32 => 0x0001,
        DataFormat::Data24Channel32 => 0x0003,
        DataFormat::Data32Channel32 => 0x0005,
    }
}

/// The I2S configuration register for the given settings: I2S mode selected, peripheral
/// disabled.
pub open spec fn configuration_bits(
    role: SlaveOrMaster,
    direction: TransmitOrReceive,
    standard: I2sStandard,
    polarity: ClockPolarity,
    format: DataFormat,
) -> u16 {
    (I2SCFGR_I2SMOD + mode_bits(role, direction) + standard_bits(standard) + polarity_bits(
        polarity,
    ) + format_bits(format)) as u16
}

/// The prescaler register for a division in `[4, 511]`: divider in bits 0 to 7, odd factor in
/// bit 8, master clock output in bit 9.
pub open spec fn prescaler_bits(master_clock: bool, division: int) -> u16 {
    (division / 2 + 256 * (division % 2) + if master_clock {
        512int
    } else {
        0int
    }) as u16
}

/// The division `2 * div + odd` held by a prescaler register.
pub open spec fn register_division(i2spr: u16) -> int {
    2 * (i2spr % 256) + (i2spr / 256) % 2
}

/// The master clock output bit of a prescaler register.
pub open spec fn register_master_clock(i2spr: u16) -> bool {
    (i2spr / 512) % 2 == 1
}

/// The channel length bit of a configuration register: set for 32 bit channels.
pub open spec fn register_wide_channel(i2scfgr: u16) -> bool {
    i2scfgr % 2 == 1
}

/// Configuration register value for the given settings.
pub fn configuration_value(
    role: SlaveOrMaster,
    direction: TransmitOrReceive,
    standard: I2sStandard,
    polarity: ClockPolarity,
    format: DataFormat,
) -> (r: u16)
    ensures
        r == configuration_bits(role, direction, standard, polarity, format),
{
    let mode: u16 = match (role, direction) {
        (SlaveOrMaster::Slave, TransmitOrReceive::Transmit) => 0x0000,
        (SlaveOrMaster::Slave, TransmitOrReceive::Receive) => 0x0100,
        (SlaveOrMaster::Master, TransmitOrReceive::Transmit) => 0x0200,
        (SlaveOrMaster::Master, TransmitOrReceive::Receive) => 0x0300,
    };
    let std: u16 = match standard {
        I2sStandard::Philips => 0x0000,
        I2sStandard::Msb => 0x0010,
        I2sStandard::Lsb => 0x0020,
        I2sStandard::PcmShortSync => 0x0030,
        I2sStandard::PcmLongSync => 0x00B0,
    };
    let pol: u16 = match polarity {
        ClockPolarity::IdleLow => 0x0000,
        ClockPolarity::IdleHigh => 0x0008,
    };
    let fmt: u16 = match format {
        DataFormat::Data16Channel16 => 0x0000,
        DataFormat::Data16Channel32 => 0x0001,
        DataFormat::Data24Channel32 => 0x0003,
        DataFormat::Data32Channel32 => 0x0005,
    };
    I2SCFGR_I2SMOD + mode + std + pol + fmt
}

/// Prescaler register value for the pair `(odd, div)` and the master clock setting.
pub fn prescaler_value(master_clock: bool, odd: bool, div: u8) -> (r: u16)
    ensures
        r == prescaler_bits(master_clock, crate::freq::division_of(odd, div)),
        register_division(r) == crate::freq::division_of(odd, div),
        register_master_clock(r) == master_clock,
{
    let odd_bit: u16 = if odd { I2SPR_ODD } else { 0 };
    let mck_bit: u16 = if master_clock { I2SPR_MCKOE } else { 0 };
    div as u16 + odd_bit + mck_bit
}

/// Sampling frequency that the peripheral reaches from a clock of `i2s_clock` with the given
/// prescaler and configuration registers.
pub open spec fn register_sample_rate(i2s_clock: u32, i2spr: u16, i2scfgr: u16) -> int {
    rate_of(
        i2s_clock as int,
        channel_coef(register_master_clock(i2spr), register_wide_channel(i2scfgr)),
        register_division(i2spr),
    )
}

/// A division in `[4, 511]` is held by the prescaler register exactly, with a divider of at
/// least 2.
pub proof fn lemma_prescaler_bits(master_clock: bool, division: int)
    requires
        4 <= division <= 511,
    ensures
        prescaler_bits(master_clock, division) % 256 >= 2,
        register_division(prescaler_bits(master_clock, division)) == division,
        register_master_clock(prescaler_bits(master_clock, division)) == master_clock,
{
}

/// The channel length bit of a configuration register matches the data format it was built
/// from.
pub proof fn lemma_configuration_channel(
    role: SlaveOrMaster,
    direction: TransmitOrReceive,
    standard: I2sStandard,
    polarity: ClockPolarity,
    format: DataFormat,
)
    ensures
        register_wide_channel(configuration_bits(role, direction, standard, polarity, format))
            == wide_channel(format),
{
}

} // verus!
