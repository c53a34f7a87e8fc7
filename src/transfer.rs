//! Abstraction for I2S transfer.
//!
//! [`TransferConfig`] offers the builder of [`I2sDriverConfig`] for [`Transfer`] objects.
use vstd::prelude::*;

use crate::driver::{
    built_from, ClockPolarity, ConfigModel, DataFormat, Frequency, FrequencyError, I2sDriver,
    I2sDriverConfig, I2sStandard, SlaveOrMaster, TransmitOrReceive,
};
use crate::marker::{DirectionMarker, Master, Mode, Receive, RoleMarker, Slave, Transmit};
use crate::I2sPeripheral;

verus! {

/// I2s transfer configuration builder.
///
///  - `MS`: `Master` or `Slave`
///  - `TR`: `Transmit` or `Receive`
pub struct TransferConfig<MS: RoleMarker, TR: DirectionMarker> {
    driver_config: I2sDriverConfig<MS, TR>,
}

impl<MS: RoleMarker, TR: DirectionMarker> View for TransferConfig<MS, TR> {
    type V = ConfigModel;

    closed spec fn view(&self) -> ConfigModel {
        self.driver_config@
    }
}

impl<MS: RoleMarker, TR: DirectionMarker> Clone for TransferConfig<MS, TR> {
    fn clone(&self) -> (r: Self)
        ensures
            r@ == self@,
    {
        TransferConfig { driver_config: self.driver_config.clone() }
    }
}

impl<MS: RoleMarker, TR: DirectionMarker> Copy for TransferConfig<MS, TR> {

}

impl TransferConfig<Slave, Transmit> {
    /// Create a new default slave configuration.
    pub fn new_slave() -> (r: Self)
        ensures
            r@ == ConfigModel::initial(SlaveOrMaster::Slave),
    {
        Self { driver_config: I2sDriverConfig::new_slave() }
    }
}

impl TransferConfig<Master, Transmit> {
    /// Create a new default master configuration.
    pub fn new_master() -> (r: Self)
        ensures
            r@ == ConfigModel::initial(SlaveOrMaster::Master),
    {
        Self { driver_config: I2sDriverConfig::new_master() }
    }
}

impl Default for TransferConfig<Slave, Transmit> {
    /// Create a default configuration. It corresponds to a default slave configuration.
    fn default() -> (r: Self)
        ensures
            r@ == ConfigModel::initial(SlaveOrMaster::Slave),
    {
        Self::new_slave()
    }
}

/// An I2S transfer object around a driver.
pub struct Transfer<I: I2sPeripheral, MODE> {
    driver: I2sDriver<I, MODE>,
}

impl<I: I2sPeripheral, MODE> Transfer<I, MODE> {
    /// The driver that the transfer object uses.
    pub closed spec fn driver(&self) -> I2sDriver<I, MODE> {
        self.driver
    }
}

impl<MS: RoleMarker, TR: DirectionMarker> TransferConfig<MS, TR> {
    /// Create a `Transfer` object. Fails when an exact frequency is required and the clock of
    /// the peripheral cannot give it.
    pub fn i2s_transfer<I: I2sPeripheral>(self, i2s_peripheral: I) -> (r: Result<
        Transfer<I, Mode<MS, TR>>,
        FrequencyError<I>,
    >)
        ensures
            built_from(
                self@,
                i2s_peripheral.writes(),
                i2s_peripheral.reads(),
                match r {
                    Ok(t) => Ok(t.driver()),
                    Err(e) => Err(e),
                },
            ),
    {
        match self.driver_config.i2s_driver(i2s_peripheral) {
            Ok(driver) => Ok(Transfer { driver }),
            Err(e) => Err(e),
        }
    }

    /// Configure transfer for transmission.
    pub fn transmit(self) -> (r: TransferConfig<MS, Transmit>)
        ensures
            r@ == (ConfigModel { direction: TransmitOrReceive::Transmit, ..self@ }),
    {
        TransferConfig { driver_config: self.driver_config.transmit() }
    }

    /// Configure transfer for reception.
    pub fn receive(self) -> (r: TransferConfig<MS, Receive>)
        ensures
            r@ == (ConfigModel { direction: TransmitOrReceive::Receive, ..self@ }),
    {
        TransferConfig { driver_config: self.driver_config.receive() }
    }

    /// Select the I2s standard to use.
    pub fn standard(self, standard: I2sStandard) -> (r: Self)
        ensures
            r@ == (ConfigModel { standard, ..self@ }),
    {
        TransferConfig { driver_config: self.driver_config.standard(standard) }
    }

    /// Select steady state clock polarity.
    pub fn clock_polarity(self, polarity: ClockPolarity) -> (r: Self)
        ensures
            r@ == (ConfigModel { clock_polarity: polarity, ..self@ }),
    {
        TransferConfig { driver_config: self.driver_config.clock_polarity(polarity) }
    }

    /// Select data format.
    pub fn data_format(self, format: DataFormat) -> (r: Self)
        ensures
            r@ == (ConfigModel { data_format: format, ..self@ }),
    {
        TransferConfig { driver_config: self.driver_config.data_format(format) }
    }

    /// Convert to a slave configuration. This deletes master only settings.
    pub fn to_slave(self) -> (r: TransferConfig<Slave, TR>)
        ensures
            r@ == (ConfigModel {
                role: SlaveOrMaster::Slave,
                master_clock: false,
                frequency: Frequency::Prescaler(false, 2),
                ..self@
            }),
    {
        TransferConfig { driver_config: self.driver_config.to_slave() }
    }

    /// Convert to a master configuration.
    pub fn to_master(self) -> (r: TransferConfig<Master, TR>)
        ensures
            r@ == (ConfigModel { role: SlaveOrMaster::Master, ..self@ }),
    {
        TransferConfig { driver_config: self.driver_config.to_master() }
    }
}

impl<TR: DirectionMarker> TransferConfig<Master, TR> {
    /// Enable/Disable Master Clock. Affect the effective sampling rate.
    pub fn master_clock(self, enable: bool) -> (r: Self)
        ensures
            r@ == (ConfigModel { master_clock: enable, ..self@ }),
    {
        TransferConfig { driver_config: self.driver_config.master_clock(enable) }
    }

    /// Configure audio frequency by setting the prescaler with an odd factor and a divider
    /// (at least 2). See [`I2sDriverConfig::prescaler`].
    pub fn prescaler(self, odd: bool, div: u8) -> (r: Self)
        requires
            div >= 2,
        ensures
            r@ == (ConfigModel { frequency: Frequency::Prescaler(odd, div), ..self@ }),
    {
        TransferConfig { driver_config: self.driver_config.prescaler(odd, div) }
    }

    /// Request an audio sampling frequency, in Hz. The effective audio sampling frequency may
    /// differ.
    pub fn request_frequency(self, freq: u32) -> (r: Self)
        requires
            freq > 0,
        ensures
            r@ == (ConfigModel { frequency: Frequency::Request(freq), ..self@ }),
    {
        TransferConfig { driver_config: self.driver_config.request_frequency(freq) }
    }

    /// Require exactly this audio sampling frequency, in Hz.
    ///
    /// If the required frequency cannot be set, creating the transfer object fails.
    pub fn require_frequency(self, freq: u32) -> (r: Self)
        requires
            freq > 0,
        ensures
            r@ == (ConfigModel { frequency: Frequency::Require(freq), ..self@ }),
    {
        TransferConfig { driver_config: self.driver_config.require_frequency(freq) }
    }
}

} // verus!
