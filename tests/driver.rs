use stm32_i2s_v12x::driver::{
    Channel, ClockPolarity, DataFormat, I2sDriver, I2sDriverConfig, I2sStandard, Status,
};
use stm32_i2s_v12x::marker::{DirectionMarker, Master, Mode, Receive, RoleMarker, Slave, Transmit};
use stm32_i2s_v12x::registers::{
    CR2_ERRIE, CR2_RXDMAEN, CR2_RXNEIE, CR2_TXDMAEN, CR2_TXEIE, I2SCFGR_I2SE, I2SPR_MCKOE,
    SR_BSY, SR_CHSIDE, SR_FRE, SR_OVR, SR_RXNE, SR_TXE, SR_UDR,
};
use stm32_i2s_v12x::transfer::TransferConfig;
use stm32_i2s_v12x::{I2sPeripheral, Register, WsPin};

struct Pin {
    high: bool,
}

impl WsPin for Pin {
    fn is_low(&self) -> bool {
        !self.high
    }
    fn is_high(&self) -> bool {
        self.high
    }
}

struct FakeI2s {
    clock: u32,
    regs: [u16; 6],
    writes: Vec<(Register, u16)>,
    reads: Vec<Register>,
    clock_reads: std::cell::Cell<u32>,
    pin: Pin,
}

fn index(register: Register) -> usize {
    match register {
        Register::Cr1 => 0,
        Register::Cr2 => 1,
        Register::Sr => 2,
        Register::Dr => 3,
        Register::I2scfgr => 4,
        Register::I2spr => 5,
    }
}

impl FakeI2s {
    fn new(clock: u32) -> Self {
        FakeI2s {
            clock,
            regs: [0x1234; 6],
            writes: Vec::new(),
            reads: Vec::new(),
            clock_reads: std::cell::Cell::new(0),
            pin: Pin { high: false },
        }
    }
    fn reg(&self, register: Register) -> u16 {
        self.regs[index(register)]
    }
}

impl I2sPeripheral for FakeI2s {
    type WsPin = Pin;
    fn i2s_freq(&self) -> u32 {
        self.clock_reads.set(self.clock_reads.get() + 1);
        self.clock
    }
    fn ws_pin(&self) -> &Pin {
        &self.pin
    }
    fn ws_pin_mut(&mut self) -> &mut Pin {
        &mut self.pin
    }
    fn rcc_reset(&mut self) {
        self.regs = [0; 6];
    }
    fn read_register(&mut self, register: Register) -> u16 {
        self.reads.push(register);
        self.regs[index(register)]
    }
    fn write_register(&mut self, register: Register, value: u16) {
        self.writes.push((register, value));
        self.regs[index(register)] = value;
    }
}

fn build<MS: RoleMarker, TR: DirectionMarker>(config: I2sDriverConfig<MS, TR>, clock: u32) -> I2sDriver<FakeI2s, Mode<MS, TR>> {
    match config.i2s_driver(FakeI2s::new(clock)) {
        Ok(driver) => driver,
        Err(_) => panic!("the configuration was expected to build"),
    }
}

#[test]
fn request_frequency_deviates_as_documented() {
    let config = I2sDriverConfig::new_master()
        .master_clock(true)
        .data_format(DataFormat::Data16Channel16)
        .request_frequency(48_000);
    let driver = build(config, 48_000_000);
    assert_eq!(driver.i2s_peripheral().reg(Register::I2spr), I2SPR_MCKOE | 2);
    assert_eq!(driver.sample_rate(), 46_875);
}

#[test]
fn require_frequency_unreachable_fails() {
    let config = I2sDriverConfig::new_master().master_clock(true).require_frequency(48_000);
    match config.i2s_driver(FakeI2s::new(48_000_000)) {
        Ok(_) => panic!("48 kHz cannot be reached exactly from 48 MHz"),
        Err(e) => assert!(e.i2s_peripheral.writes.is_empty()),
    }
    let transfer = TransferConfig::new_master().master_clock(true).require_frequency(48_000);
    assert!(transfer.i2s_transfer(FakeI2s::new(48_000_000)).is_err());
}

#[test]
fn require_frequency_reachable_reads_back_exactly() {
    let config = I2sDriverConfig::new_master().master_clock(true).require_frequency(48_000);
    let driver = build(config, 49_152_000);
    assert_eq!(driver.sample_rate(), 48_000);
    let config = I2sDriverConfig::new_master()
        .receive()
        .data_format(DataFormat::Data32Channel32)
        .require_frequency(25_000);
    let driver = build(config, 48_000_000);
    assert_eq!(driver.i2s_peripheral().reg(Register::I2spr), 15);
    assert_eq!(driver.sample_rate(), 25_000);
}

#[test]
fn build_resets_then_writes_registers() {
    let config = I2sDriverConfig::new_master()
        .receive()
        .standard(I2sStandard::PcmLongSync)
        .clock_polarity(ClockPolarity::IdleHigh)
        .data_format(DataFormat::Data24Channel32)
        .prescaler(true, 3);
    let driver = build(config, 48_000_000);
    let p = driver.i2s_peripheral();
    assert_eq!(
        p.writes,
        vec![
            (Register::Cr1, 0),
            (Register::Cr2, 0),
            (Register::I2scfgr, 0x0BBB),
            (Register::I2spr, 0x0103),
        ]
    );
    assert_eq!(p.clock_reads.get(), 0);
}

#[test]
fn configuration_register_layout() {
    let slave_tx = I2sDriverConfig::new_slave();
    assert_eq!(slave_tx.configuration_register_value(), 0x0800);
    assert_eq!(slave_tx.receive().configuration_register_value(), 0x0900);
    let master = I2sDriverConfig::new_master();
    assert_eq!(master.configuration_register_value(), 0x0A00);
    assert_eq!(master.standard(I2sStandard::Msb).configuration_register_value(), 0x0A10);
    assert_eq!(master.standard(I2sStandard::Lsb).configuration_register_value(), 0x0A20);
    assert_eq!(master.standard(I2sStandard::PcmShortSync).configuration_register_value(), 0x0A30);
    assert_eq!(master.data_format(DataFormat::Data16Channel32).configuration_register_value(), 0x0A01);
    assert_eq!(master.data_format(DataFormat::Data32Channel32).configuration_register_value(), 0x0A05);
}

#[test]
fn builder_leaves_earlier_values_alone() {
    let base = I2sDriverConfig::new_master();
    let msb = base.standard(I2sStandard::Msb);
    let lsb = base.standard(I2sStandard::Lsb);
    assert_eq!(base.configuration_register_value(), 0x0A00);
    assert_eq!(msb.configuration_register_value(), 0x0A10);
    assert_eq!(lsb.configuration_register_value(), 0x0A20);
    let requested = base.request_frequency(48_000);
    assert_eq!(base.prescaler_register_value(48_000_000), Some(2));
    assert_eq!(requested.prescaler_register_value(86_000_000), Some(0x001C));
}

#[test]
fn to_slave_drops_master_settings() {
    let master = I2sDriverConfig::new_master()
        .receive()
        .master_clock(true)
        .prescaler(true, 40)
        .standard(I2sStandard::Lsb);
    assert_eq!(master.prescaler_register_value(0), Some(I2SPR_MCKOE | 0x0100 | 40));
    let slave = master.to_slave();
    assert_eq!(slave.prescaler_register_value(0), Some(2));
    assert_eq!(slave.configuration_register_value(), 0x0920);
    let back = slave.to_master();
    assert_eq!(back.configuration_register_value(), 0x0B20);
    assert_eq!(back.prescaler_register_value(0), Some(2));
}

#[test]
fn to_master_keeps_settings() {
    let config = I2sDriverConfig::new_master().master_clock(true).prescaler(false, 10);
    let again = config.to_master();
    assert_eq!(again.prescaler_register_value(0), Some(I2SPR_MCKOE | 10));
}

#[test]
fn default_config_is_slave_transmit() {
    let config: I2sDriverConfig<Slave, Transmit> = Default::default();
    assert_eq!(config.configuration_register_value(), 0x0800);
    assert_eq!(config.prescaler_register_value(12_345), Some(2));
    assert_eq!(DataFormat::default(), DataFormat::Data16Channel16);
}

#[test]
fn enable_and_disable_toggle_one_bit() {
    let mut driver = build(I2sDriverConfig::new_slave(), 0);
    driver.enable();
    assert_eq!(driver.i2s_peripheral().reg(Register::I2scfgr), 0x0800 | I2SCFGR_I2SE);
    driver.disable();
    assert_eq!(driver.i2s_peripheral().reg(Register::I2scfgr), 0x0800);
}

#[test]
fn interrupt_and_dma_enables() {
    let mut tx = build(I2sDriverConfig::new_slave(), 0);
    tx.set_tx_interrupt(true);
    tx.set_tx_dma(true);
    tx.set_error_interrupt(true);
    assert_eq!(tx.i2s_peripheral().reg(Register::Cr2), CR2_TXEIE | CR2_TXDMAEN | CR2_ERRIE);
    tx.set_tx_interrupt(false);
    assert_eq!(tx.i2s_peripheral().reg(Register::Cr2), CR2_TXDMAEN | CR2_ERRIE);

    let mut rx = build(I2sDriverConfig::new_master().receive(), 0);
    rx.set_rx_interrupt(true);
    rx.set_rx_dma(true);
    rx.set_error_interrupt(true);
    assert_eq!(rx.i2s_peripheral().reg(Register::Cr2), CR2_RXNEIE | CR2_RXDMAEN | CR2_ERRIE);
    rx.set_rx_dma(false);
    rx.set_error_interrupt(false);
    assert_eq!(rx.i2s_peripheral().reg(Register::Cr2), CR2_RXNEIE);
}

#[test]
fn data_register_access() {
    let mut tx = build(I2sDriverConfig::new_master(), 0);
    tx.write_data_register(0xBEEF);
    assert_eq!(tx.i2s_peripheral().writes.last(), Some(&(Register::Dr, 0xBEEF)));
    assert_eq!(tx.i2s_peripheral().writes.len(), 5);
    assert_eq!(tx.i2s_peripheral().reg(Register::Dr), 0xBEEF);
    let mut rx = build(I2sDriverConfig::new_slave().receive(), 0);
    rx.i2s_peripheral_mut().regs[3] = 0x4242;
    assert_eq!(rx.read_data_register(), 0x4242);
}

#[test]
fn status_reads_the_status_register() {
    let mut rx = build(I2sDriverConfig::new_slave().receive(), 0);
    rx.i2s_peripheral_mut().regs[2] = SR_OVR | SR_RXNE | SR_FRE | SR_CHSIDE;
    let status = rx.status();
    assert_eq!(rx.i2s_peripheral().reads, vec![Register::Sr]);
    assert_eq!(rx.read_data_register(), 0x1234);
    assert_eq!(rx.i2s_peripheral().reads, vec![Register::Sr, Register::Dr]);
    assert_eq!(rx.i2s_peripheral().writes.len(), 4);
    assert!(status.ovr());
    assert!(status.rxne());
    assert!(status.fre());
    assert!(!status.bsy());
    assert_eq!(status.chside(), Channel::Right);
}

#[test]
fn status_flags_follow_their_bits() {
    let s: Status<Slave, Transmit> = Status::from_bits(SR_UDR | SR_TXE | SR_BSY);
    assert!(s.udr());
    assert!(s.txe());
    assert!(s.bsy());
    assert!(!s.fre());
    assert_eq!(s.chside(), Channel::Left);
    let m: Status<Master, Transmit> = Status::from_bits(SR_CHSIDE);
    assert!(!m.txe());
    assert_eq!(m.chside(), Channel::Right);
}

#[test]
fn overrun_flag_stays_set_across_reads_of_a_snapshot() {
    let s: Status<Master, Receive> = Status::from_bits(SR_OVR);
    assert!(s.ovr());
    assert!(s.ovr());
    assert!(!s.rxne());
}

#[test]
fn release_resets_configuration() {
    let mut driver = build(I2sDriverConfig::new_master().master_clock(true).prescaler(true, 9), 0);
    driver.enable();
    driver.set_tx_dma(true);
    let before = driver.i2s_peripheral().writes.len();
    let p = driver.release();
    assert_eq!(
        p.writes[before..].to_vec(),
        vec![
            (Register::Cr1, 0),
            (Register::Cr2, 0),
            (Register::I2scfgr, 0),
            (Register::I2spr, 2),
        ]
    );
    assert!(p.reads.is_empty());
    assert_eq!(p.reg(Register::Cr1), 0);
    assert_eq!(p.reg(Register::Cr2), 0);
    assert_eq!(p.reg(Register::I2scfgr), 0);
    assert_eq!(p.reg(Register::I2spr), 2);
}

#[test]
fn reconfigure_changes_mode() {
    let driver = build(I2sDriverConfig::new_master(), 48_000_000);
    let new_config = I2sDriverConfig::new_slave().receive().data_format(DataFormat::Data32Channel32);
    let driver = match driver.reconfigure(new_config) {
        Ok(d) => d,
        Err(_) => panic!("a prescaler configuration always builds"),
    };
    assert_eq!(driver.i2s_peripheral().reg(Register::I2scfgr), 0x0905);
    assert_eq!(driver.i2s_peripheral().reg(Register::I2spr), 2);
    let d2 = I2sDriver::new(FakeI2s::new(0), I2sDriverConfig::new_slave());
    assert!(d2.is_ok());
}

#[test]
fn ws_line_level() {
    let mut driver = build(I2sDriverConfig::new_slave(), 0);
    assert!(driver.ws_is_low());
    assert!(!driver.ws_is_high());
    driver.i2s_peripheral_mut().pin.high = true;
    assert!(driver.ws_is_high());
    assert!(!driver.ws_is_low());
}

#[test]
fn transfer_config_builds() {
    let config = TransferConfig::new_master()
        .receive()
        .standard(I2sStandard::Msb)
        .clock_polarity(ClockPolarity::IdleLow)
        .data_format(DataFormat::Data16Channel32)
        .master_clock(false)
        .prescaler(false, 4)
        .request_frequency(44_100)
        .to_slave()
        .to_master()
        .transmit();
    assert!(config.i2s_transfer(FakeI2s::new(48_000_000)).is_ok());
    let slave: TransferConfig<Slave, Transmit> = Default::default();
    assert!(slave.i2s_transfer(FakeI2s::new(0)).is_ok());
    assert!(TransferConfig::new_slave().i2s_transfer(FakeI2s::new(0)).is_ok());
}

#[test]
fn sample_rate_at_a_given_clock() {
    let config = I2sDriverConfig::new_master()
        .data_format(DataFormat::Data32Channel32)
        .prescaler(true, 15);
    let driver = build(config, 0);
    // 86 MHz / (64 * 31)
    assert_eq!(driver.sample_rate_at(86_000_000), 43_346);
    assert_eq!(driver.sample_rate(), 0);
    let driver = build(I2sDriverConfig::new_master().master_clock(true), 0);
    assert_eq!(driver.sample_rate_at(48_000_000), 46_875);
}

#[test]
fn failed_build_touches_no_register() {
    let config = I2sDriverConfig::new_master().require_frequency(48_000);
    match config.i2s_driver(FakeI2s::new(48_000_000)) {
        Ok(_) => panic!("48 MHz / (32 * 48 kHz) is not an integer"),
        Err(e) => {
            assert!(e.i2s_peripheral.writes.is_empty());
            assert!(e.i2s_peripheral.reads.is_empty());
            assert_eq!(e.i2s_peripheral.clock_reads.get(), 1);
        }
    }
}
