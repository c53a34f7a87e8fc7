//! Configuration builder, driver handle and status snapshot of an SPI peripheral in I2S mode.
//!
//! [`I2sDriverConfig`] describes a configuration. Each builder method consumes the value and
//! returns a new one; the methods that change the role or the direction change the type too.
//! [`I2sDriverConfig::i2s_driver`] then resets the peripheral, writes its registers and returns
//! an [`I2sDriver`] whose available methods depend on its role and direction.
use core::marker::PhantomData;
use vstd::prelude::*;

use crate::freq::{
    coef_spec, division_of, request_prescaler, require_prescaler, requested_division,
    required_division, sample_rate_of,
};
use crate::marker::{DirectionMarker, Master, Mode, Receive, RoleMarker, Slave, Transmit};
use crate::registers::{
    configuration_bits, configuration_value, flag, lemma_configuration_channel,
    lemma_prescaler_bits, prescaler_bits, prescaler_value, register_division,
    register_sample_rate, set_bits, with_bits, CR2_ERRIE, CR2_RXDMAEN, CR2_RXNEIE, CR2_TXDMAEN,
    CR2_TXEIE, I2SCFGR_I2SE, I2SPR_RESET, SR_BSY, SR_CHSIDE, SR_FRE, SR_OVR, SR_RXNE, SR_TXE,
    SR_UDR,
};
use crate::{I2sPeripheral, Register, WsPin};

verus! {

/// The channel associated with a sample.
#[derive(Debug, Clone, Copy, PartialEq, Eq, Structural)]
pub enum Channel {
    /// Left channel
    Left,
    /// Right channel
    Right,
}

/// Role of the peripheral on the bus.
#[derive(Debug, Clone, Copy, PartialEq, Eq, Structural)]
pub enum SlaveOrMaster {
    /// The bit clock and word select come from another device.
    Slave,
    /// The peripheral drives the bit clock and word select.
    Master,
}

/// Direction of the audio data.
#[derive(Debug, Clone, Copy, PartialEq, Eq, Structural)]
pub enum TransmitOrReceive {
    /// Samples are sent.
    Transmit,
    /// Samples are received.
    Receive,
}

/// Various ways to specify the sampling frequency.
#[derive(Debug, Clone, Copy, PartialEq, Eq, Structural)]
pub enum Frequency {
    /// Direct prescaler setting: odd factor and divider (at least 2).
    Prescaler(bool, u8),
    /// Nearest reachable frequency to the one given, in Hz.
    Request(u32),
    /// Exactly the frequency given, in Hz, or no driver at all.
    Require(u32),
}

/// I2s standard selection.
#[derive(Debug, Clone, Copy, PartialEq, Eq, Structural)]
pub enum I2sStandard {
    /// Philips I2S
    Philips,
    /// MSB Justified
    Msb,
    /// LSB Justified
    Lsb,
    /// PCM with short frame synchronisation.
    PcmShortSync,
    /// PCM with long frame synchronisation.
    PcmLongSync,
}

/// Steady state clock polarity.
#[derive(Debug, Clone, Copy, PartialEq, Eq, Structural)]
pub enum ClockPolarity {
    /// Clock low when idle
    IdleLow,
    /// Clock high when idle
    IdleHigh,
}

/// Data length to be transferred and channel length.
#[derive(Debug, Clone, Copy, PartialEq, Eq, Structural)]
pub enum DataFormat {
    /// 16 bit data length on 16 bit wide channel
    Data16Channel16,
    /// 16 bit data length on 32 bit wide channel
    Data16Channel32,
    /// 24 bit data length on 32 bit wide channel
    Data24Channel32,
    /// 32 bit data length on 32 bit wide channel
    Data32Channel32,
}

impl Default for DataFormat {
    fn default() -> (r: Self)
        ensures
            r == DataFormat::Data16Channel16,
    {
        DataFormat::Data16Channel16
    }
}

/// The settings held by an [`I2sDriverConfig`].
pub struct ConfigModel {
    pub role: SlaveOrMaster,
    pub direction: TransmitOrReceive,
    pub standard: I2sStandard,
    pub clock_polarity: ClockPolarity,
    pub data_format: DataFormat,
    pub master_clock: bool,
    pub frequency: Frequency,
}

impl ConfigModel {
    /// The frequency setting can be programmed: a divider of at least 2, a positive frequency.
    pub open spec fn wf(self) -> bool {
        match self.frequency {
            Frequency::Prescaler(_, div) => div >= 2,
            Frequency::Request(freq) => freq > 0,
            Frequency::Require(freq) => freq > 0,
        }
    }

    /// The configuration register that this configuration programs.
    pub open spec fn configuration_register(self) -> u16 {
        configuration_bits(
            self.role,
            self.direction,
            self.standard,
            self.clock_polarity,
            self.data_format,
        )
    }

    /// The prescaler register that this configuration programs on a peripheral clocked at
    /// `i2s_clock`; `None` when a required frequency cannot be reached exactly.
    pub open spec fn prescaler_register(self, i2s_clock: u32) -> Option<u16> {
        match self.frequency {
            Frequency::Prescaler(odd, div) => Some(
                prescaler_bits(self.master_clock, division_of(odd, div)),
            ),
            Frequency::Request(freq) => Some(
                prescaler_bits(
                    self.master_clock,
                    requested_division(
                        i2s_clock as int,
                        freq as int,
                        self.master_clock,
                        self.data_format,
                    ),
                ),
            ),
            Frequency::Require(freq) => match required_division(
                i2s_clock as int,
                freq as int,
                self.master_clock,
                self.data_format,
            ) {
                Some(division) => Some(prescaler_bits(self.master_clock, division)),
                None => None,
            },
        }
    }

    /// The default settings of a new configuration with the given role.
    pub open spec fn initial(role: SlaveOrMaster) -> ConfigModel {
        ConfigModel {
            role,
            direction: TransmitOrReceive::Transmit,
            standard: I2sStandard::Philips,
            clock_polarity: ClockPolarity::IdleLow,
            data_format: DataFormat::Data16Channel16,
            master_clock: false,
            frequency: Frequency::Prescaler(false, 2),
        }
    }
}

/// I2s driver configuration. Can be used as an i2s driver builder.
///
///  - `MS`: `Master` or `Slave`
///  - `TR`: `Transmit` or `Receive`
///
/// Because of its typestate, methods of this type don't change the value they are called on,
/// they return a new value instead.
pub struct I2sDriverConfig<MS: RoleMarker, TR: DirectionMarker> {
    slave_or_master: SlaveOrMaster,
    transmit_or_receive: TransmitOrReceive,
    standard: I2sStandard,
    clock_polarity: ClockPolarity,
    data_format: DataFormat,
    master_clock: bool,
    frequency: Frequency,
    _ms: PhantomData<MS>,
    _tr: PhantomData<TR>,
}

impl<MS: RoleMarker, TR: DirectionMarker> View for I2sDriverConfig<MS, TR> {
    type V = ConfigModel;

    closed spec fn view(&self) -> ConfigModel {
        ConfigModel {
            role: self.slave_or_master,
            direction: self.transmit_or_receive,
            standard: self.standard,
            clock_polarity: self.clock_polarity,
            data_format: self.data_format,
            master_clock: self.master_clock,
            frequency: self.frequency,
        }
    }
}

impl<MS: RoleMarker, TR: DirectionMarker> Clone for I2sDriverConfig<MS, TR> {
    fn clone(&self) -> (r: Self)
        ensures
            r@ == self@,
    {
        proof {
            use_type_invariant(self);
        }
        Self::with_model(self.model())
    }
}

impl<MS: RoleMarker, TR: DirectionMarker> Copy for I2sDriverConfig<MS, TR> {

}

impl<MS: RoleMarker, TR: DirectionMarker> I2sDriverConfig<MS, TR> {
    #[verifier::type_invariant]
    closed spec fn inv(&self) -> bool {
        &&& self@.wf()
        &&& self.slave_or_master == MS::role()
        &&& self.transmit_or_receive == TR::direction()
    }

    fn model(&self) -> (r: ConfigModel)
        ensures
            r == self@,
    {
        ConfigModel {
            role: self.slave_or_master,
            direction: self.transmit_or_receive,
            standard: self.standard,
            clock_polarity: self.clock_polarity,
            data_format: self.data_format,
            master_clock: self.master_clock,
            frequency: self.frequency,
        }
    }

    fn with_model(m: ConfigModel) -> (r: Self)
        requires
            m.wf(),
            m.role == MS::role(),
            m.direction == TR::direction(),
        ensures
            r@ == m,
    {
        I2sDriverConfig {
            slave_or_master: m.role,
            transmit_or_receive: m.direction,
            standard: m.standard,
            clock_polarity: m.clock_polarity,
            data_format: m.data_format,
            master_clock: m.master_clock,
            frequency: m.frequency,
            _ms: PhantomData,
            _tr: PhantomData,
        }
    }
}

impl I2sDriverConfig<Slave, Transmit> {
    /// Create a new default slave configuration.
    pub fn new_slave() -> (r: Self)
        ensures
            r@ == ConfigModel::initial(SlaveOrMaster::Slave),
    {
        Self::with_model(
            ConfigModel {
                role: SlaveOrMaster::Slave,
                direction: TransmitOrReceive::Transmit,
                standard: I2sStandard::Philips,
                clock_polarity: ClockPolarity::IdleLow,
                data_format: DataFormat::Data16Channel16,
                master_clock: false,
                frequency: Frequency::Prescaler(false, 2),
            },
        )
    }
}

impl I2sDriverConfig<Master, Transmit> {
    /// Create a new default master configuration.
    pub fn new_master() -> (r: Self)
        ensures
            r@ == ConfigModel::initial(SlaveOrMaster::Master),
    {
        Self::with_model(
            ConfigModel {
                role: SlaveOrMaster::Master,
                direction: TransmitOrReceive::Transmit,
                standard: I2sStandard::Philips,
                clock_polarity: ClockPolarity::IdleLow,
                data_format: DataFormat::Data16Channel16,
                master_clock: false,
                frequency: Frequency::Prescaler(false, 2),
            },
        )
    }
}

impl Default for I2sDriverConfig<Slave, Transmit> {
    /// Create a default configuration. It corresponds to a default slave configuration.
    fn default() -> (r: Self)
        ensures
            r@ == ConfigModel::initial(SlaveOrMaster::Slave),
    {
        Self::new_slave()
    }
}

impl<MS: RoleMarker, TR: DirectionMarker> I2sDriverConfig<MS, TR> {
    /// The prescaler register value that this configuration programs on a peripheral clocked
    /// at `i2s_clock`, or `None` when a required frequency cannot be reached exactly.
    pub fn prescaler_register_value(&self, i2s_clock: u32) -> (r: Option<u16>)
        ensures
            r == self@.prescaler_register(i2s_clock),
    {
        proof {
            use_type_invariant(self);
        }
        match self.frequency {
            Frequency::Prescaler(odd, div) => Some(prescaler_value(self.master_clock, odd, div)),
            Frequency::Request(freq) => {
                let (odd, div) = request_prescaler(
                    i2s_clock,
                    freq,
                    self.master_clock,
                    self.data_format,
                );
                Some(prescaler_value(self.master_clock, odd, div))
            },
            Frequency::Require(freq) => {
                match require_prescaler(i2s_clock, freq, self.master_clock, self.data_format) {
                    Some((odd, div)) => Some(prescaler_value(self.master_clock, odd, div)),
                    None => None,
                }
            },
        }
    }

    /// The configuration register value that this configuration programs.
    pub fn configuration_register_value(&self) -> (r: u16)
        ensures
            r == self@.configuration_register(),
    {
        configuration_value(
            self.slave_or_master,
            self.transmit_or_receive,
            self.standard,
            self.clock_polarity,
            self.data_format,
        )
    }

    /// Configure driver in transmit mode.
    pub fn transmit(self) -> (r: I2sDriverConfig<MS, Transmit>)
        ensures
            r@ == (ConfigModel { direction: TransmitOrReceive::Transmit, ..self@ }),
    {
        proof {
            use_type_invariant(&self);
        }
        I2sDriverConfig::<MS, Transmit>::with_model(
            ConfigModel { direction: TransmitOrReceive::Transmit, ..self.model() },
        )
    }
    /// Configure driver in receive mode.
    pub fn receive(self) -> (r: I2sDriverConfig<MS, Receive>)
        ensures
            r@ == (ConfigModel { direction: TransmitOrReceive::Receive, ..self@ }),
    {
        proof {
            use_type_invariant(&self);
        }
        I2sDriverConfig::<MS, Receive>::with_model(
            ConfigModel { direction: TransmitOrReceive::Receive, ..self.model() },
        )
    }

    /// Select the I2s standard to use.
    pub fn standard(self, standard: I2sStandard) -> (r: Self)
        ensures
            r@ == (ConfigModel { standard, ..self@ }),
    {
        proof {
            use_type_invariant(&self);
        }
        Self::with_model(ConfigModel { standard, ..self.model() })
    }

    /// Select steady state clock polarity.
    pub fn clock_polarity(self, polarity: ClockPolarity) -> (r: Self)
        ensures
            r@ == (ConfigModel { clock_polarity: polarity, ..self@ }),
    {
        proof {
            use_type_invariant(&self);
        }
        Self::with_model(ConfigModel { clock_polarity: polarity, ..self.model() })
    }

    /// Select data format.
    pub fn data_format(self, format: DataFormat) -> (r: Self)
        ensures
            r@ == (ConfigModel { data_format: format, ..self@ }),
    {
        proof {
            use_type_invariant(&self);
        }
        Self::with_model(ConfigModel { data_format: format, ..self.model() })
    }

    /// Convert to a slave configuration. The master only settings go back to their defaults:
    /// no master clock, prescaler `(false, 2)`.
    pub fn to_slave(self) -> (r: I2sDriverConfig<Slave, TR>)
        ensures
            r@ == (ConfigModel {
                role: SlaveOrMaster::Slave,
                master_clock: false,
                frequency: Frequency::Prescaler(false, 2),
                ..self@
            }),
    {
        proof {
            use_type_invariant(&self);
        }
        I2sDriverConfig::<Slave, TR>::with_model(
            ConfigModel {
                role: SlaveOrMaster::Slave,
                master_clock: false,
                frequency: Frequency::Prescaler(false, 2),
                ..self.model()
            },
        )
    }

    /// Convert to a master configuration. All other settings are kept.
    pub fn to_master(self) -> (r: I2sDriverConfig<Master, TR>)
        ensures
            r@ == (ConfigModel { role: SlaveOrMaster::Master, ..self@ }),
    {
        proof {
            use_type_invariant(&self);
        }
        I2sDriverConfig::<Master, TR>::with_model(
            ConfigModel { role: SlaveOrMaster::Master, ..self.model() },
        )
    }
}

impl<TR: DirectionMarker> I2sDriverConfig<Master, TR> {
    /// Enable/Disable Master Clock. Affect the effective sampling rate.
    ///
    /// This can be only set and only have meaning for Master mode.
    pub fn master_clock(self, enable: bool) -> (r: Self)
        ensures
            r@ == (ConfigModel { master_clock: enable, ..self@ }),
    {
        proof {
            use_type_invariant(&self);
        }
        Self::with_model(ConfigModel { master_clock: enable, ..self.model() })
    }

    /// Configure audio frequency by setting the prescaler with an odd factor and a divider.
    ///
    /// The effective sampling frequency is:
    ///  - `i2s_clock / [256 * ((2 * div) + odd)]` when master clock is enabled
    ///  - `i2s_clock / [(channel_length * 2) * ((2 * div) + odd)]` when master clock is disabled
    ///
    /// `i2s_clock` is I2S clock source frequency, and `channel_length` is width in bits of the
    /// channel (see [DataFormat]). `div` must be at least 2.
    pub fn prescaler(self, odd: bool, div: u8) -> (r: Self)
        requires
            div >= 2,
        ensures
            r@ == (ConfigModel { frequency: Frequency::Prescaler(odd, div), ..self@ }),
    {
        proof {
            use_type_invariant(&self);
        }
        Self::with_model(ConfigModel { frequency: Frequency::Prescaler(odd, div), ..self.model() })
    }

    /// Request an audio sampling frequency, in Hz. The effective audio sampling frequency may
    /// differ.
    pub fn request_frequency(self, freq: u32) -> (r: Self)
        requires
            freq > 0,
        ensures
            r@ == (ConfigModel { frequency: Frequency::Request(freq), ..self@ }),
    {
        proof {
            use_type_invariant(&self);
        }
        Self::with_model(ConfigModel { frequency: Frequency::Request(freq), ..self.model() })
    }

    /// Require exactly this audio sampling frequency, in Hz.
    ///
    /// If the required frequency cannot be reached, instantiating the driver fails.
    pub fn require_frequency(self, freq: u32) -> (r: Self)
        requires
            freq > 0,
        ensures
            r@ == (ConfigModel { frequency: Frequency::Require(freq), ..self@ }),
    {
        proof {
            use_type_invariant(&self);
        }
        Self::with_model(ConfigModel { frequency: Frequency::Require(freq), ..self.model() })
    }
}

/// Content of the status register.
///
///  - `MS`: `Master` or `Slave`
///  - `TR`: `Transmit` or `Receive`
///
/// A snapshot is a value: reading a flag from it touches no register.
pub struct Status<MS, TR> {
    value: u16,
    _ms: PhantomData<MS>,
    _tr: PhantomData<TR>,
}

impl<MS, TR> Status<MS, TR> {
    /// The status register bits held by this snapshot.
    pub closed spec fn bits(&self) -> u16 {
        self.value
    }

    /// A snapshot of the given status register bits.
    pub fn from_bits(value: u16) -> (r: Self)
        ensures
            r.bits() == value,
    {
        Status { value, _ms: PhantomData, _tr: PhantomData }
    }

    /// Get the BSY flag. If `true` the I2s device is busy communicating.
    pub fn bsy(&self) -> (r: bool)
        ensures
            r == flag(self.bits(), SR_BSY),
    {
        self.value & SR_BSY != 0
    }

    /// Get the CHSIDE flag. It indicates the channel that has been received or is to be
    /// transmitted.
    ///
    /// This flag is updated when TXE or RXNE flags are set. This flag is meaningless and
    /// therefore not reliable in case of error or when using the PCM standard.
    pub fn chside(&self) -> (r: Channel)
        ensures
            r == (if flag(self.bits(), SR_CHSIDE) {
                Channel::Right
            } else {
                Channel::Left
            }),
    {
        if self.value & SR_CHSIDE != 0 {
            Channel::Right
        } else {
            Channel::Left
        }
    }
}

impl<TR> Status<Slave, TR> {
    /// Get the FRE flag. If `true` a frame error occurred.
    ///
    /// This flag is set by hardware when the WS line changes at an unexpected moment. It can
    /// only be set in Slave mode and therefore can only be read in this mode. It is cleared when
    /// reading the status register.
    pub fn fre(&self) -> (r: bool)
        ensures
            r == flag(self.bits(), SR_FRE),
    {
        self.value & SR_FRE != 0
    }
}

impl<MS> Status<MS, Receive> {
    /// Get the OVR flag. If `true` an overrun error occurred.
    ///
    /// This flag is set when data are received and the previous data have not yet been read.
    /// It is cleared by a read of the data register followed by a read of the status register.
    pub fn ovr(&self) -> (r: bool)
        ensures
            r == flag(self.bits(), SR_OVR),
    {
        self.value & SR_OVR != 0
    }

    /// Get the RXNE flag. If `true` a valid received data is present in the Rx buffer.
    ///
    /// This flag is cleared when the data register is read.
    pub fn rxne(&self) -> (r: bool)
        ensures
            r == flag(self.bits(), SR_RXNE),
    {
        self.value & SR_RXNE != 0
    }
}

impl<MS> Status<MS, Transmit> {
    /// Get the TXE flag. If `true` the Tx buffer is empty and the next data can be loaded
    /// into it.
    ///
    /// This flag is cleared by writing into the data register or by disabling the peripheral.
    pub fn txe(&self) -> (r: bool)
        ensures
            r == flag(self.bits(), SR_TXE),
    {
        self.value & SR_TXE != 0
    }
}

impl Status<Slave, Transmit> {
    /// Get the UDR flag. If `true` an underrun error occurred.
    ///
    /// This flag is set when the first clock for data transmission appears while the software
    /// has not yet loaded any value into the data register. It is cleared by reading the status
    /// register.
    pub fn udr(&self) -> (r: bool)
        ensures
            r == flag(self.bits(), SR_UDR),
    {
        self.value & SR_UDR != 0
    }
}

/// The configuration requires a sampling frequency that the prescaler cannot reach exactly
/// from the clock of the peripheral. The peripheral comes back with its registers untouched.
pub struct FrequencyError<I> {
    pub i2s_peripheral: I,
}

/// Driver of a SPI peripheral in I2S mode.
///
/// Meant for advanced usage, for example using interrupt or DMA. The driver keeps the values
/// it wrote into the control, configuration and prescaler registers, which only it writes.
pub struct I2sDriver<I, MODE> {
    i2s_peripheral: I,
    cr2: u16,
    i2scfgr: u16,
    i2spr: u16,
    _mode: PhantomData<MODE>,
}

/// The register writes that construction makes on the peripheral: both control registers
/// reset, then the configuration and prescaler registers written.
pub open spec fn build_writes(i2scfgr: u16, i2spr: u16) -> Seq<(Register, u16)> {
    seq![
        (Register::Cr1, 0u16),
        (Register::Cr2, 0u16),
        (Register::I2scfgr, i2scfgr),
        (Register::I2spr, i2spr),
    ]
}

/// The register writes that releasing a driver makes: control, configuration and prescaler
/// registers back to their reset values.
pub open spec fn release_writes() -> Seq<(Register, u16)> {
    seq![
        (Register::Cr1, 0u16),
        (Register::Cr2, 0u16),
        (Register::I2scfgr, 0u16),
        (Register::I2spr, I2SPR_RESET),
    ]
}

/// What building a driver of mode `Mode<MS, TR>` from the configuration `c`, on a peripheral
/// that had made the register writes `writes` and reads `reads`, gives: either a driver whose
/// registers hold what `c` programs for the clock of the peripheral, written after a reset of
/// the control registers, or, for a required frequency that this clock cannot reach, an error
/// with no register read or written. The role and direction of `c` are those of the mode.
pub open spec fn built_from<I: I2sPeripheral, MS: RoleMarker, TR: DirectionMarker>(
    c: ConfigModel,
    writes: Seq<(Register, u16)>,
    reads: Seq<Register>,
    r: Result<I2sDriver<I, Mode<MS, TR>>, FrequencyError<I>>,
) -> bool {
    &&& c.role == MS::role()
    &&& c.direction == TR::direction()
    &&& exists|i2s_clock: u32| #[trigger]
        c.prescaler_register(i2s_clock) == match r {
            Ok(d) => Some(d.prescaler()),
            Err(_) => None::<u16>,
        }
    &&& r matches Ok(d) ==> {
        &&& d.wf()
        &&& d.control2() == 0
        &&& d.configuration() == c.configuration_register()
        &&& d.peripheral().writes() == writes + build_writes(d.configuration(), d.prescaler())
        &&& d.peripheral().reads() == reads
    }
    &&& r matches Err(e) ==> e.i2s_peripheral.writes() == writes && e.i2s_peripheral.reads()
        == reads
    &&& !(c.frequency is Require) ==> r is Ok
}

impl<I, MODE> I2sDriver<I, MODE> {
    /// The value of the control register 2 (interrupt and DMA enables).
    pub closed spec fn control2(&self) -> u16 {
        self.cr2
    }

    /// The value of the I2S configuration register.
    pub closed spec fn configuration(&self) -> u16 {
        self.i2scfgr
    }

    /// The value of the I2S prescaler register.
    pub closed spec fn prescaler(&self) -> u16 {
        self.i2spr
    }

    /// The owned peripheral.
    pub closed spec fn peripheral(&self) -> I {
        self.i2s_peripheral
    }

    /// The prescaler register holds a divider of at least 2.
    pub open spec fn wf(&self) -> bool {
        self.prescaler() % 256 >= 2
    }
}

impl<MS: RoleMarker, TR: DirectionMarker> I2sDriverConfig<MS, TR> {
    /// Instantiate the driver by wrapping the given [`I2sPeripheral`].
    ///
    /// The control registers are reset, then the configuration and prescaler registers are
    /// written. Fails, before any register is written, when an exact frequency is required
    /// and the clock of the peripheral cannot give it.
    pub fn i2s_driver<I: I2sPeripheral>(self, i2s_peripheral: I) -> (r: Result<
        I2sDriver<I, Mode<MS, TR>>,
        FrequencyError<I>,
    >)
        ensures
            built_from(self@, i2s_peripheral.writes(), i2s_peripheral.reads(), r),
            r matches Err(e) ==> e.i2s_peripheral == i2s_peripheral,
    {
        proof {
            use_type_invariant(&self);
        }
        let mut i2s_peripheral = i2s_peripheral;
        let i2s_clock: u32 = match self.frequency {
            Frequency::Prescaler(_, _) => 0,
            _ => i2s_peripheral.i2s_freq(),
        };
        let i2spr = match self.prescaler_register_value(i2s_clock) {
            Some(v) => v,
            None => {
                assert(self@.prescaler_register(i2s_clock) == None::<u16>);
                return Err(FrequencyError { i2s_peripheral });
            },
        };
        proof {
            match self@.frequency {
                Frequency::Prescaler(odd, div) => {
                    lemma_prescaler_bits(self@.master_clock, division_of(odd, div));
                },
                Frequency::Request(freq) => {
                    lemma_prescaler_bits(
                        self@.master_clock,
                        requested_division(
                            i2s_clock as int,
                            freq as int,
                            self@.master_clock,
                            self@.data_format,
                        ),
                    );
                },
                Frequency::Require(freq) => {
                    lemma_prescaler_bits(
                        self@.master_clock,
                        required_division(
                            i2s_clock as int,
                            freq as int,
                            self@.master_clock,
                            self@.data_format,
                        )->Some_0,
                    );
                },
            }
        }
        let i2scfgr = self.configuration_register_value();
        let ghost old_writes = i2s_peripheral.writes();
        i2s_peripheral.write_register(Register::Cr1, 0);
        i2s_peripheral.write_register(Register::Cr2, 0);
        i2s_peripheral.write_register(Register::I2scfgr, i2scfgr);
        i2s_peripheral.write_register(Register::I2spr, i2spr);
        let driver = I2sDriver { i2s_peripheral, cr2: 0, i2scfgr, i2spr, _mode: PhantomData };
        assert(driver.peripheral().writes() =~= old_writes + build_writes(i2scfgr, i2spr));
        assert(self@.prescaler_register(i2s_clock) == Some(driver.prescaler()));
        Ok(driver)
    }
}

/// Constructors and destructors.
impl<I: I2sPeripheral, MS: RoleMarker, TR: DirectionMarker> I2sDriver<I, Mode<MS, TR>> {
    /// Instantiate an i2s driver from an [`I2sPeripheral`] object and a configuration.
    ///
    /// Fails when an exact frequency is required by the configuration and that frequency
    /// cannot be set.
    pub fn new(i2s_peripheral: I, config: I2sDriverConfig<MS, TR>) -> (r: Result<
        Self,
        FrequencyError<I>,
    >)
        ensures
            built_from(config@, i2s_peripheral.writes(), i2s_peripheral.reads(), r),
            r matches Err(e) ==> e.i2s_peripheral == i2s_peripheral,
    {
        config.i2s_driver(i2s_peripheral)
    }

    /// Destroy the driver, reset the configuration of the peripheral and release it.
    pub fn release(self) -> (r: I)
        ensures
            r.writes() == self.peripheral().writes() + release_writes(),
            r.reads() == self.peripheral().reads(),
    {
        let mut i2s_peripheral = self.i2s_peripheral;
        i2s_peripheral.write_register(Register::Cr1, 0);
        i2s_peripheral.write_register(Register::Cr2, 0);
        i2s_peripheral.write_register(Register::I2scfgr, 0);
        i2s_peripheral.write_register(Register::I2spr, I2SPR_RESET);
        assert(i2s_peripheral.writes() =~= self.peripheral().writes() + release_writes());
        i2s_peripheral
    }

    /// Consume the driver and create a new one with the given configuration.
    pub fn reconfigure<NewMs: RoleMarker, NewTr: DirectionMarker>(self, config: I2sDriverConfig<NewMs, NewTr>) -> (r: Result<
        I2sDriver<I, Mode<NewMs, NewTr>>,
        FrequencyError<I>,
    >)
        ensures
            built_from(
                config@,
                self.peripheral().writes() + release_writes(),
                self.peripheral().reads(),
                r,
            ),
    {
        let i2s_peripheral = self.release();
        config.i2s_driver(i2s_peripheral)
    }
}

impl<I: I2sPeripheral, MODE> I2sDriver<I, MODE> {
    /// Get a reference to the underlying i2s device.
    pub fn i2s_peripheral(&self) -> (r: &I)
        ensures
            *r == self.peripheral(),
    {
        &self.i2s_peripheral
    }

    /// Get a mutable reference to the underlying i2s device.
    ///
    /// The driver keeps the values it wrote into the control, configuration and prescaler
    /// registers and builds its later writes from them: a caller that writes these registers
    /// through this reference gets its changes overwritten by the next driver operation on
    /// the same register.
    pub fn i2s_peripheral_mut(&mut self) -> (r: &mut I)
        ensures
            *r == old(self).peripheral(),
            final(self).peripheral() == *final(r),
            final(self).control2() == old(self).control2(),
            final(self).configuration() == old(self).configuration(),
            final(self).prescaler() == old(self).prescaler(),
    {
        &mut self.i2s_peripheral
    }

    /// Enable the I2S peripheral.
    pub fn enable(&mut self)
        ensures
            final(self).configuration() == old(self).configuration() | I2SCFGR_I2SE,
            final(self).control2() == old(self).control2(),
            final(self).prescaler() == old(self).prescaler(),
            final(self).peripheral().writes() == old(self).peripheral().writes().push(
                (Register::I2scfgr, final(self).configuration()),
            ),
            final(self).peripheral().reads() == old(self).peripheral().reads(),
    {
        self.i2scfgr = self.i2scfgr | I2SCFGR_I2SE;
        self.i2s_peripheral.write_register(Register::I2scfgr, self.i2scfgr);
    }

    /// Immediately disable the I2S peripheral.
    ///
    /// It's up to the caller to not disable the peripheral in the middle of a frame.
    pub fn disable(&mut self)
        ensures
            final(self).configuration() == old(self).configuration() & !I2SCFGR_I2SE,
            final(self).control2() == old(self).control2(),
            final(self).prescaler() == old(self).prescaler(),
            final(self).peripheral().writes() == old(self).peripheral().writes().push(
                (Register::I2scfgr, final(self).configuration()),
            ),
            final(self).peripheral().reads() == old(self).peripheral().reads(),
    {
        self.i2scfgr = self.i2scfgr & !I2SCFGR_I2SE;
        self.i2s_peripheral.write_register(Register::I2scfgr, self.i2scfgr);
    }

    /// Return `true` if the level on the WS line is high.
    pub fn ws_is_high(&self) -> bool {
        self.i2s_peripheral.ws_pin().is_high()
    }

    /// Return `true` if the level on the WS line is low.
    pub fn ws_is_low(&self) -> bool {
        self.i2s_peripheral.ws_pin().is_low()
    }

    /// Set or clear the bits of `mask` in the control register 2.
    fn update_control2(&mut self, mask: u16, enabled: bool)
        ensures
            final(self).control2() == with_bits(old(self).control2(), mask, enabled),
            final(self).configuration() == old(self).configuration(),
            final(self).prescaler() == old(self).prescaler(),
            final(self).peripheral().writes() == old(self).peripheral().writes().push(
                (Register::Cr2, final(self).control2()),
            ),
            final(self).peripheral().reads() == old(self).peripheral().reads(),
    {
        self.cr2 = set_bits(self.cr2, mask, enabled);
        self.i2s_peripheral.write_register(Register::Cr2, self.cr2);
    }
}

/// Status.
impl<I: I2sPeripheral, MS, TR> I2sDriver<I, Mode<MS, TR>> {
    /// Get the content of the status register.
    ///
    /// When reading the status register, the hardware may reset some error flag of it. The way
    /// each flag can be modified is documented on each [Status] flag getter.
    pub fn status(&mut self) -> (r: Status<MS, TR>)
        ensures
            final(self).control2() == old(self).control2(),
            final(self).configuration() == old(self).configuration(),
            final(self).prescaler() == old(self).prescaler(),
            final(self).peripheral().reads() == old(self).peripheral().reads().push(Register::Sr),
            final(self).peripheral().writes() == old(self).peripheral().writes(),
    {
        let value = self.i2s_peripheral.read_register(Register::Sr);
        Status::from_bits(value)
    }
}

/// Transmit only methods.
impl<I: I2sPeripheral, MS> I2sDriver<I, Mode<MS, Transmit>> {
    /// Write a raw half word to the Tx buffer and clear the TXE flag in status register.
    ///
    /// It's up to the caller to write the content when it's empty.
    pub fn write_data_register(&mut self, value: u16)
        ensures
            final(self).control2() == old(self).control2(),
            final(self).configuration() == old(self).configuration(),
            final(self).prescaler() == old(self).prescaler(),
            final(self).peripheral().writes() == old(self).peripheral().writes().push(
                (Register::Dr, value),
            ),
            final(self).peripheral().reads() == old(self).peripheral().reads(),
    {
        self.i2s_peripheral.write_register(Register::Dr, value);
    }

    /// When set to `true`, an interrupt is generated each time the Tx buffer is empty.
    pub fn set_tx_interrupt(&mut self, enabled: bool)
        ensures
            final(self).control2() == with_bits(old(self).control2(), CR2_TXEIE, enabled),
            final(self).configuration() == old(self).configuration(),
            final(self).prescaler() == old(self).prescaler(),
            final(self).peripheral().writes() == old(self).peripheral().writes().push(
                (Register::Cr2, final(self).control2()),
            ),
            final(self).peripheral().reads() == old(self).peripheral().reads(),
    {
        self.update_control2(CR2_TXEIE, enabled)
    }

    /// When set to `true`, a dma request is generated each time the Tx buffer is empty.
    pub fn set_tx_dma(&mut self, enabled: bool)
        ensures
            final(self).control2() == with_bits(old(self).control2(), CR2_TXDMAEN, enabled),
            final(self).configuration() == old(self).configuration(),
            final(self).prescaler() == old(self).prescaler(),
            final(self).peripheral().writes() == old(self).peripheral().writes().push(
                (Register::Cr2, final(self).control2()),
            ),
            final(self).peripheral().reads() == old(self).peripheral().reads(),
    {
        self.update_control2(CR2_TXDMAEN, enabled)
    }
}

/// Receive only methods.
impl<I: I2sPeripheral, MS> I2sDriver<I, Mode<MS, Receive>> {
    /// Read a raw value from the Rx buffer and clear the RXNE flag in status register.
    pub fn read_data_register(&mut self) -> (r: u16)
        ensures
            final(self).control2() == old(self).control2(),
            final(self).configuration() == old(self).configuration(),
            final(self).prescaler() == old(self).prescaler(),
            final(self).peripheral().reads() == old(self).peripheral().reads().push(Register::Dr),
            final(self).peripheral().writes() == old(self).peripheral().writes(),
    {
        self.i2s_peripheral.read_register(Register::Dr)
    }

    /// When set to `true`, an interrupt is generated each time the Rx buffer contains a new
    /// data.
    pub fn set_rx_interrupt(&mut self, enabled: bool)
        ensures
            final(self).control2() == with_bits(old(self).control2(), CR2_RXNEIE, enabled),
            final(self).configuration() == old(self).configuration(),
            final(self).prescaler() == old(self).prescaler(),
            final(self).peripheral().writes() == old(self).peripheral().writes().push(
                (Register::Cr2, final(self).control2()),
            ),
            final(self).peripheral().reads() == old(self).peripheral().reads(),
    {
        self.update_control2(CR2_RXNEIE, enabled)
    }

    /// When set to `true`, a dma request is generated each time the Rx buffer contains a new
    /// data.
    pub fn set_rx_dma(&mut self, enabled: bool)
        ensures
            final(self).control2() == with_bits(old(self).control2(), CR2_RXDMAEN, enabled),
            final(self).configuration() == old(self).configuration(),
            final(self).prescaler() == old(self).prescaler(),
            final(self).peripheral().writes() == old(self).peripheral().writes().push(
                (Register::Cr2, final(self).control2()),
            ),
            final(self).peripheral().reads() == old(self).peripheral().reads(),
    {
        self.update_control2(CR2_RXDMAEN, enabled)
    }
}

/// Error interrupt, Master Receive Mode.
impl<I: I2sPeripheral> I2sDriver<I, Mode<Master, Receive>> {
    /// When set to `true`, an interrupt is generated each time an error occurs.
    ///
    /// Not available for Master Transmit because no error can occur in this mode.
    pub fn set_error_interrupt(&mut self, enabled: bool)
        ensures
            final(self).control2() == with_bits(old(self).control2(), CR2_ERRIE, enabled),
            final(self).configuration() == old(self).configuration(),
            final(self).prescaler() == old(self).prescaler(),
            final(self).peripheral().writes() == old(self).peripheral().writes().push(
                (Register::Cr2, final(self).control2()),
            ),
            final(self).peripheral().reads() == old(self).peripheral().reads(),
    {
        self.update_control2(CR2_ERRIE, enabled)
    }
}

/// Error interrupt, Slave Mode.
impl<I: I2sPeripheral, TR> I2sDriver<I, Mode<Slave, TR>> {
    /// When set to `true`, an interrupt is generated each time an error occurs.
    ///
    /// Not available for Master Transmit because no error can occur in this mode.
    pub fn set_error_interrupt(&mut self, enabled: bool)
        ensures
            final(self).control2() == with_bits(old(self).control2(), CR2_ERRIE, enabled),
            final(self).configuration() == old(self).configuration(),
            final(self).prescaler() == old(self).prescaler(),
            final(self).peripheral().writes() == old(self).peripheral().writes().push(
                (Register::Cr2, final(self).control2()),
            ),
            final(self).peripheral().reads() == old(self).peripheral().reads(),
    {
        self.update_control2(CR2_ERRIE, enabled)
    }
}

/// Sampling rate.
impl<I: I2sPeripheral, TR> I2sDriver<I, Mode<Master, TR>> {
    /// The sample rate that the prescaler and configuration registers of the driver give on a
    /// peripheral clocked at `i2s_clock`.
    pub fn sample_rate_at(&self, i2s_clock: u32) -> (r: u32)
        requires
            self.wf(),
        ensures
            r == register_sample_rate(i2s_clock, self.prescaler(), self.configuration()),
    {
        let div = (self.i2spr % 256) as u8;
        let odd = (self.i2spr / 256) % 2 == 1;
        let master_clock = (self.i2spr / 512) % 2 == 1;
        let wide = self.i2scfgr % 2 == 1;
        sample_rate_of(i2s_clock, master_clock, wide, odd, div)
    }

    /// Get the actual sample rate imposed by the driver, computed from the prescaler and
    /// configuration registers and from the clock of the peripheral.
    ///
    /// This allows to check the deviation from a requested frequency.
    pub fn sample_rate(&self) -> (r: u32)
        requires
            self.wf(),
        ensures
            exists|i2s_clock: u32| #[trigger]
                register_sample_rate(i2s_clock, self.prescaler(), self.configuration()) == r,
    {
        let i2s_clock = self.i2s_peripheral.i2s_freq();
        self.sample_rate_at(i2s_clock)
    }
}

/// A configuration that requires the frequency `freq` builds on a clock `i2s_clock` exactly when
/// `coef * freq` divides the clock with a quotient in `[4, 511]`, and the sampling rate read back
/// from the registers it then programs is `freq` itself.
pub proof fn lemma_required_frequency_is_exact(c: ConfigModel, i2s_clock: u32)
    requires
        c.frequency is Require,
        c.frequency->Require_0 > 0,
    ensures
        ({
            let cf = coef_spec(c.master_clock, c.data_format) * c.frequency->Require_0;
            &&& (i2s_clock as int) % cf != 0 ==> c.prescaler_register(i2s_clock) is None
            &&& c.prescaler_register(i2s_clock) is Some <==> ((i2s_clock as int) % cf == 0 && 4
                <= (i2s_clock as int) / cf <= 511)
            &&& c.prescaler_register(i2s_clock) matches Some(i2spr) ==> register_sample_rate(
                i2s_clock,
                i2spr,
                c.configuration_register(),
            ) == c.frequency->Require_0
        }),
{
    let freq = c.frequency->Require_0 as int;
    let k = coef_spec(c.master_clock, c.data_format);
    let clock = i2s_clock as int;
    if let Some(division) = required_division(clock, freq, c.master_clock, c.data_format) {
        lemma_prescaler_bits(c.master_clock, division);
        lemma_configuration_channel(
            c.role,
            c.direction,
            c.standard,
            c.clock_polarity,
            c.data_format,
        );
        assert(clock / (k * division) == freq) by (nonlinear_arith)
            requires
                clock % (k * freq) == 0,
                division == clock / (k * freq),
                k > 0,
                freq > 0,
                division > 0,
        {
            assert(clock == (k * freq) * division + clock % (k * freq));
            assert(clock == (k * division) * freq);
        }
    }
}

/// The prescaler of a configuration that requests a frequency always holds a division in
/// `[4, 511]`, whatever the clock.
pub proof fn lemma_requested_division_in_range(c: ConfigModel, i2s_clock: u32)
    requires
        c.frequency is Request,
    ensures
        c.prescaler_register(i2s_clock) matches Some(i2spr) && 4 <= register_division(i2spr)
            <= 511,
{
    let division = requested_division(
        i2s_clock as int,
        c.frequency->Request_0 as int,
        c.master_clock,
        c.data_format,
    );
    lemma_prescaler_bits(c.master_clock, division);
}

} // verus!
