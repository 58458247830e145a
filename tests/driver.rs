use embedded_hal::delay::DelayNs;
use embedded_hal::digital::{ErrorType as PinErrorType, OutputPin};
use embedded_hal::spi::{ErrorKind, ErrorType as SpiErrorType, SpiBus};
use rfm95_lora::error::Error;
use rfm95_lora::lora::config::Builder;
use rfm95_lora::lora::types::{
    Bandwidth, CodingRate, CrcMode, Duration, Frequency, HeaderMode, Polarity, PreambleLength, SpreadingFactor,
    SyncWord,
};
use rfm95_lora::rfm95::connection::Rfm95Connection;
use rfm95_lora::rfm95::driver::{check_silicon_revision, rx_timeout_symbols};
use rfm95_lora::rfm95::{rfm95_spi_baudrate, rfm95_spi_frequency, Rfm95Driver, RFM95_FIFO_SIZE};
use std::cell::RefCell;
use std::rc::Rc;

/// A register-file model of the modem: plain memory, with the FIFO behind register 0x00
struct Chip {
    regs: [u8; 128],
    fifo: [u8; 256],
    fail: bool,
    transfers: usize,
}

#[derive(Clone)]
struct SimBus(Rc<RefCell<Chip>>);

impl SpiErrorType for SimBus {
    type Error = ErrorKind;
}

impl SpiBus for SimBus {
    fn read(&mut self, _words: &mut [u8]) -> Result<(), ErrorKind> {
        Err(ErrorKind::Other)
    }
    fn write(&mut self, _words: &[u8]) -> Result<(), ErrorKind> {
        Err(ErrorKind::Other)
    }
    fn transfer(&mut self, _read: &mut [u8], _write: &[u8]) -> Result<(), ErrorKind> {
        Err(ErrorKind::Other)
    }
    fn transfer_in_place(&mut self, words: &mut [u8]) -> Result<(), ErrorKind> {
        let mut chip = self.0.borrow_mut();
        if chip.fail || words.len() != 2 {
            return Err(ErrorKind::Other);
        }
        chip.transfers += 1;
        let address = (words[0] & 0x7F) as usize;
        let writing = words[0] & 0x80 != 0;
        if address == 0 {
            let pointer = chip.regs[0x0D] as usize;
            let previous = chip.fifo[pointer];
            if writing {
                chip.fifo[pointer] = words[1];
            }
            words[1] = previous;
        } else {
            let previous = chip.regs[address];
            if writing {
                chip.regs[address] = words[1];
            }
            words[1] = previous;
        }
        Ok(())
    }
    fn flush(&mut self) -> Result<(), ErrorKind> {
        Ok(())
    }
}

struct SimPin;

impl PinErrorType for SimPin {
    type Error = core::convert::Infallible;
}

impl OutputPin for SimPin {
    fn set_low(&mut self) -> Result<(), Self::Error> {
        Ok(())
    }
    fn set_high(&mut self) -> Result<(), Self::Error> {
        Ok(())
    }
}

struct NoDelay;

impl DelayNs for NoDelay {
    fn delay_ns(&mut self, _ns: u32) {}
}

fn chip(revision: u8) -> Rc<RefCell<Chip>> {
    let mut regs = [0u8; 128];
    regs[0x42] = revision;
    Rc::new(RefCell::new(Chip { regs, fifo: [0; 256], fail: false, transfers: 0 }))
}

fn driver(chip: &Rc<RefCell<Chip>>) -> Rfm95Driver<SimBus, SimPin> {
    Rfm95Driver::new(SimBus(chip.clone()), SimPin, SimPin, NoDelay).expect("driver")
}

/// A driver set to SF7 at 500 kHz, where one symbol lasts 256 µs
fn fast_driver(chip: &Rc<RefCell<Chip>>) -> Rfm95Driver<SimBus, SimPin> {
    let mut driver = driver(chip);
    chip.borrow_mut().regs[0x1E] = 7 << 4;
    driver.set_bandwidth(Bandwidth::B500).unwrap();
    driver
}

#[test]
fn new_puts_modem_into_lora_standby() {
    let chip = chip(0x12);
    let _driver = driver(&chip);
    let c = chip.borrow();
    // LoRa mode, shared registers in LoRa mode, standby
    assert_eq!(c.regs[0x01], 0b1000_0001);
    assert_eq!(c.regs[0x0E], 0);
    assert_eq!(c.regs[0x0F], 0);
    assert_eq!(c.regs[0x09], 0xFF);
}

#[test]
fn new_rejects_unknown_silicon_revision() {
    let chip = chip(0x22);
    let r = Rfm95Driver::new(SimBus(chip.clone()), SimPin, SimPin, NoDelay);
    assert_eq!(r.err(), Some(Error::UnsupportedSiliconRevision));
    assert_eq!(check_silicon_revision(0x11), Ok(()));
    assert_eq!(check_silicon_revision(0x12), Ok(()));
    assert_eq!(check_silicon_revision(0x13), Err(Error::UnsupportedSiliconRevision));
}

#[test]
fn new_reports_bus_failure() {
    let chip = chip(0x11);
    chip.borrow_mut().fail = true;
    let r = Rfm95Driver::new(SimBus(chip.clone()), SimPin, SimPin, NoDelay);
    assert_eq!(r.err(), Some(Error::CommunicationFailure));
}

#[test]
fn partial_write_keeps_sibling_fields() {
    let chip = chip(0x12);
    let mut driver = driver(&chip);
    // Bandwidth 500 kHz in the upper nibble and implicit header in bit 0 share the register with the coding rate
    chip.borrow_mut().regs[0x1D] = 0b1001_0001;
    driver.set_coding_rate(CodingRate::C4_7).unwrap();
    assert_eq!(chip.borrow().regs[0x1D], 0b1001_0111);
    assert_eq!(driver.bandwidth(), Ok(Bandwidth::B500));
    assert_eq!(driver.header_mode(), Ok(HeaderMode::Implicit));
    assert_eq!(driver.coding_rate(), Ok(CodingRate::C4_7));
}

#[test]
fn set_config_writes_every_field() {
    let chip = chip(0x12);
    let mut driver = driver(&chip);
    chip.borrow_mut().regs[0x1E] = 7 << 4;
    let config = Builder::builder()
        .set_spreading_factor(SpreadingFactor::S10)
        .set_bandwidth(Bandwidth::B62_5)
        .set_coding_rate(CodingRate::C4_5)
        .set_polarity(Polarity::Inverted)
        .set_header_mode(HeaderMode::Explicit)
        .set_crc_mode(CrcMode::Enabled)
        .set_sync_word(SyncWord::private())
        .set_preamble_length(PreambleLength::new(0x0102))
        .set_frequency(Frequency::hz(433_000_000));
    driver.set_config(&config).unwrap();
    assert_eq!(driver.spreading_factor(), Ok(SpreadingFactor::S10));
    assert_eq!(driver.bandwidth(), Ok(Bandwidth::B62_5));
    assert_eq!(driver.coding_rate(), Ok(CodingRate::C4_5));
    assert_eq!(driver.polarity(), Ok(Polarity::Inverted));
    assert_eq!(driver.header_mode(), Ok(HeaderMode::Explicit));
    assert_eq!(driver.crc_mode(), Ok(CrcMode::Enabled));
    assert_eq!(driver.sync_word(), Ok(SyncWord::private()));
    assert_eq!(driver.preamble_len(), Ok(PreambleLength::new(0x0102)));
    let c = chip.borrow();
    assert_eq!((c.regs[0x20], c.regs[0x21]), (0x01, 0x02));
    // SF10 at 62.5 kHz needs low-datarate optimization, 433 MHz is low-frequency mode
    assert_eq!(c.regs[0x26] & 0b1000, 0b1000);
    assert_eq!(c.regs[0x01] & 0b1000, 0b1000);
}

#[test]
fn ldo_follows_spreading_factor_and_bandwidth() {
    let chip = chip(0x12);
    let mut driver = driver(&chip);
    chip.borrow_mut().regs[0x1D] = Bandwidth::B7_8.as_u8() << 4;
    driver.set_spreading_factor(SpreadingFactor::S7).unwrap();
    assert_eq!(chip.borrow().regs[0x26] & 0b1000, 0b1000);
    driver.set_bandwidth(Bandwidth::B500).unwrap();
    assert_eq!(chip.borrow().regs[0x26] & 0b1000, 0);
    driver.set_spreading_factor(SpreadingFactor::S12).unwrap();
    assert_eq!(chip.borrow().regs[0x26] & 0b1000, 0);
    driver.set_bandwidth(Bandwidth::B62_5).unwrap();
    assert_eq!(chip.borrow().regs[0x26] & 0b1000, 0b1000);
}

#[test]
fn invalid_register_value_is_reported() {
    let chip = chip(0x12);
    let mut driver = driver(&chip);
    chip.borrow_mut().regs[0x1E] = 6 << 4;
    assert_eq!(driver.spreading_factor(), Err(Error::InvalidParameterValue));
    assert_eq!(driver.set_bandwidth(Bandwidth::B125), Err(Error::InvalidParameterValue));
    chip.borrow_mut().regs[0x1D] = 0;
    assert_eq!(driver.coding_rate(), Err(Error::InvalidParameterValue));
}

#[test]
fn frequency_round_trip_915_mhz() {
    let chip = chip(0x12);
    let mut driver = driver(&chip);
    driver.set_frequency(Frequency::hz(915_000_000)).unwrap();
    let back = driver.frequency().unwrap().as_u32();
    assert_eq!(back, 914_999_976);
    assert!(915_000_000 - back <= 61_035 / 2);
    // 915 MHz is high-frequency mode
    assert_eq!(chip.borrow().regs[0x01] & 0b1000, 0);
}

#[test]
fn frequency_registers_hold_tick_count() {
    let chip = chip(0x12);
    let mut driver = driver(&chip);
    driver.set_frequency(Frequency::hz(868_100_000)).unwrap();
    let c = chip.borrow();
    // 868.1 MHz / 61.035 Hz = 14222986 ticks = 0xD9068A
    assert_eq!((c.regs[0x06], c.regs[0x07], c.regs[0x08]), (0xD9, 0x06, 0x8A));
}

#[test]
fn start_tx_length_limits() {
    let chip = chip(0x12);
    let mut driver = driver(&chip);
    assert_eq!(driver.start_tx(&[0u8; 256]), Err(Error::InvalidInputLength));
    assert_eq!(driver.start_tx(&[]), Err(Error::InvalidInputLength));
    let data: Vec<u8> = (0..RFM95_FIFO_SIZE).map(|i| (i * 7) as u8).collect();
    assert_eq!(driver.start_tx(&data), Ok(()));
    let c = chip.borrow();
    assert_eq!(&c.fifo[..255], &data[..]);
    assert_eq!(c.regs[0x22], 255);
    assert_eq!(c.regs[0x01] & 0b111, 0b011);
}

#[test]
fn complete_tx_reports_progress() {
    let chip = chip(0x12);
    let mut driver = driver(&chip);
    assert_eq!(driver.complete_tx(), Ok(None));
    driver.start_tx(b"hello").unwrap();
    // The simulated flag register keeps the 1 written to clear it, which reads as "done"
    assert_eq!(driver.complete_tx(), Ok(Some(5)));
    chip.borrow_mut().regs[0x12] = 0;
    assert_eq!(driver.complete_tx(), Ok(None));
}

#[test]
fn rx_timeout_max_is_1023_symbols() {
    let chip = chip(0x12);
    let mut driver = fast_driver(&chip);
    assert_eq!(driver.rx_timeout_max().unwrap().as_micros(), 1023 * 256);
}

#[test]
fn start_rx_timeout_limits() {
    let chip = chip(0x12);
    let mut driver = fast_driver(&chip);
    assert_eq!(driver.start_rx(Duration::from_micros(1024 * 256)), Err(Error::TimeoutTooLarge));
    assert_eq!(driver.start_rx(Duration::from_micros(1023 * 256 + 1)), Err(Error::TimeoutTooLarge));
    assert_eq!(driver.start_rx(Duration::from_micros(u64::MAX)), Err(Error::TimeoutTooLarge));
    assert_eq!(driver.start_rx(Duration::from_micros(1023 * 256)), Ok(()));
    let c = chip.borrow();
    assert_eq!(c.regs[0x1E] & 0b11, 0b11);
    assert_eq!(c.regs[0x1F], 0xFF);
    assert_eq!(c.regs[0x01] & 0b111, 0b110);
}

#[test]
fn start_rx_rounds_timeout_up_to_symbols() {
    let chip = chip(0x12);
    let mut driver = fast_driver(&chip);
    driver.start_rx(Duration::from_micros(257)).unwrap();
    assert_eq!(chip.borrow().regs[0x1F], 2);
    driver.start_rx(Duration::from_micros(0)).unwrap();
    assert_eq!(chip.borrow().regs[0x1F], 0);
}

#[test]
fn complete_rx_timeout_takes_priority() {
    let chip = chip(0x12);
    let mut driver = driver(&chip);
    // Timeout, CRC error and RX done all set
    chip.borrow_mut().regs[0x12] = 0b1110_0000;
    let mut buf = [0u8; 16];
    assert_eq!(driver.complete_rx(&mut buf), Err(Error::RxTimeout));
    chip.borrow_mut().regs[0x12] = 0b0110_0000;
    assert_eq!(driver.complete_rx(&mut buf), Err(Error::RxCrcError));
    chip.borrow_mut().regs[0x12] = 0;
    assert_eq!(driver.complete_rx(&mut buf), Ok(None));
}

#[test]
fn complete_rx_copies_and_truncates() {
    let chip = chip(0x12);
    let mut driver = driver(&chip);
    {
        let mut c = chip.borrow_mut();
        c.regs[0x12] = 0b0100_0000;
        c.regs[0x10] = 0xFE;
        c.regs[0x13] = 4;
        c.fifo[0xFE] = b'a';
        c.fifo[0xFF] = b'b';
        c.fifo[0x00] = b'c';
        c.fifo[0x01] = b'd';
    }
    let mut buf = [0u8; 8];
    assert_eq!(driver.complete_rx(&mut buf), Ok(Some(4)));
    assert_eq!(&buf[..4], b"abcd");
    assert_eq!(&buf[4..], &[0, 0, 0, 0]);
    let mut short = [0u8; 2];
    assert_eq!(driver.complete_rx(&mut short), Ok(Some(2)));
    assert_eq!(&short, b"ab");
}

#[test]
fn signal_quality_high_band() {
    let chip = chip(0x12);
    let mut driver = driver(&chip);
    driver.set_frequency(Frequency::hz(915_000_000)).unwrap();
    {
        let mut c = chip.borrow_mut();
        c.regs[0x19] = 40; // +10 dB
        c.regs[0x1A] = 60;
        c.regs[0x1B] = 50;
    }
    assert_eq!(driver.get_packet_snr(), Ok(10));
    assert_eq!(driver.get_packet_strength(), Ok(50 - 157));
    assert_eq!(driver.get_rssi(), Ok(60 * 16 / 15 - 157));
}

#[test]
fn signal_quality_low_band_negative_snr() {
    let chip = chip(0x12);
    let mut driver = driver(&chip);
    driver.set_frequency(Frequency::hz(433_000_000)).unwrap();
    {
        let mut c = chip.borrow_mut();
        c.regs[0x19] = (-30i8) as u8; // -7.5 dB
        c.regs[0x1A] = 60;
        c.regs[0x1B] = 50;
    }
    assert_eq!(driver.get_packet_snr(), Ok(-7));
    assert_eq!(driver.get_packet_strength(), Ok(60 - 7 - 164));
    assert_eq!(driver.get_rssi(), Ok(50 - 164));
}

#[test]
fn bus_failure_is_communication_failure() {
    let chip = chip(0x12);
    let mut driver = driver(&chip);
    chip.borrow_mut().fail = true;
    assert_eq!(driver.sync_word(), Err(Error::CommunicationFailure));
    assert_eq!(driver.start_tx(b"x"), Err(Error::CommunicationFailure));
    assert_eq!(driver.start_tx(b""), Err(Error::InvalidInputLength));
    let mut buf = [0u8; 4];
    assert_eq!(driver.complete_rx(&mut buf), Err(Error::CommunicationFailure));
}

#[test]
fn dump_registers_reads_register_file() {
    let chip = chip(0x12);
    let mut driver = driver(&chip);
    chip.borrow_mut().regs[0x39] = 0x12;
    chip.borrow_mut().regs[0x64] = 0xAB;
    let dump = driver.dump_registers().unwrap();
    assert_eq!(dump.len(), 0x65);
    assert_eq!(dump[0x39], 0x12);
    assert_eq!(dump[0x42], 0x12);
    assert_eq!(dump[0x64], 0xAB);
    assert_eq!(dump[0x09], 0xFF);
}

#[test]
fn dump_fifo_restores_pointer() {
    let chip = chip(0x12);
    let mut driver = driver(&chip);
    {
        let mut c = chip.borrow_mut();
        for i in 0..256 {
            c.fifo[i] = (255 - i) as u8;
        }
        c.regs[0x0D] = 0x42;
    }
    let dump = driver.dump_fifo().unwrap();
    assert_eq!(dump.len(), RFM95_FIFO_SIZE);
    assert_eq!(dump[0], 255);
    assert_eq!(dump[254], 1);
    assert_eq!(chip.borrow().regs[0x0D], 0x42);
}

#[test]
fn recommended_spi_settings() {
    assert_eq!(rfm95_spi_frequency().as_u32(), 10_000_000);
    assert_eq!(rfm95_spi_baudrate().as_u32(), 1_000_000);
}

/// An output line that records every level it is driven to, in a log shared with other lines
#[derive(Clone)]
struct LoggedPin {
    name: &'static str,
    log: Rc<RefCell<Vec<String>>>,
}

impl PinErrorType for LoggedPin {
    type Error = core::convert::Infallible;
}

impl OutputPin for LoggedPin {
    fn set_low(&mut self) -> Result<(), Self::Error> {
        self.log.borrow_mut().push(format!("{} low", self.name));
        Ok(())
    }
    fn set_high(&mut self) -> Result<(), Self::Error> {
        self.log.borrow_mut().push(format!("{} high", self.name));
        Ok(())
    }
}

struct LoggedDelay(Rc<RefCell<Vec<String>>>);

impl DelayNs for LoggedDelay {
    fn delay_ns(&mut self, ns: u32) {
        self.0.borrow_mut().push(format!("wait {ns} ns"));
    }
    fn delay_ms(&mut self, ms: u32) {
        self.0.borrow_mut().push(format!("wait {ms} ms"));
    }
}

#[test]
fn new_pulses_reset_before_selecting() {
    let chip = chip(0x12);
    let log = Rc::new(RefCell::new(Vec::new()));
    let select = LoggedPin { name: "select", log: log.clone() };
    let reset = LoggedPin { name: "reset", log: log.clone() };
    Rfm95Driver::new(SimBus(chip.clone()), select, reset, LoggedDelay(log.clone())).expect("driver");
    let log = log.borrow();
    assert_eq!(&log[..5], &["reset low", "wait 1 ms", "reset high", "wait 10 ms", "select low"]);
    assert_eq!(log[5], "select high");
}

#[test]
fn select_is_released_after_failed_transfer() {
    let chip = chip(0x12);
    let log = Rc::new(RefCell::new(Vec::new()));
    let select = LoggedPin { name: "select", log: log.clone() };
    let mut driver = Rfm95Driver::new(SimBus(chip.clone()), select, SimPin, NoDelay).expect("driver");
    log.borrow_mut().clear();
    chip.borrow_mut().fail = true;
    assert_eq!(driver.sync_word(), Err(Error::CommunicationFailure));
    assert_eq!(&log.borrow()[..], &["select low", "select high"]);
}

#[test]
fn whole_byte_write_is_one_select_cycle() {
    let chip = chip(0x12);
    let log = Rc::new(RefCell::new(Vec::new()));
    let select = LoggedPin { name: "select", log: log.clone() };
    let mut driver = Rfm95Driver::new(SimBus(chip.clone()), select, SimPin, NoDelay).expect("driver");
    log.borrow_mut().clear();
    let before = chip.borrow().transfers;
    driver.set_sync_word(SyncWord::new(0x77)).unwrap();
    assert_eq!(chip.borrow().transfers, before + 1);
    assert_eq!(&log.borrow()[..], &["select low", "select high"]);
    assert_eq!(chip.borrow().regs[0x39], 0x77);
}

#[test]
fn undecodable_bandwidth_stops_spreading_factor_update() {
    let chip = chip(0x12);
    let mut driver = driver(&chip);
    chip.borrow_mut().regs[0x1D] = 0xF0;
    chip.borrow_mut().regs[0x1E] = 0x70;
    let before = chip.borrow().transfers;
    assert_eq!(driver.set_spreading_factor(SpreadingFactor::S9), Err(Error::InvalidParameterValue));
    assert_eq!(chip.borrow().transfers, before + 1);
    assert_eq!(chip.borrow().regs[0x1E], 0x70);
    assert_eq!(driver.rx_timeout_max().err(), Some(Error::InvalidParameterValue));
}

#[test]
fn rx_error_flags_leave_buffer_alone() {
    let chip = chip(0x12);
    let mut driver = driver(&chip);
    let mut buf = [9u8; 4];
    chip.borrow_mut().regs[0x12] = 0b1000_0000;
    assert_eq!(driver.complete_rx(&mut buf), Err(Error::RxTimeout));
    chip.borrow_mut().regs[0x12] = 0b0010_0000;
    assert_eq!(driver.complete_rx(&mut buf), Err(Error::RxCrcError));
    assert_eq!(buf, [9; 4]);
}

/// An output line whose every call fails
struct BrokenPin;

impl PinErrorType for BrokenPin {
    type Error = embedded_hal::digital::ErrorKind;
}

impl OutputPin for BrokenPin {
    fn set_low(&mut self) -> Result<(), Self::Error> {
        Err(embedded_hal::digital::ErrorKind::Other)
    }
    fn set_high(&mut self) -> Result<(), Self::Error> {
        Err(embedded_hal::digital::ErrorKind::Other)
    }
}

#[test]
fn failed_reset_makes_no_bus_call() {
    let chip = chip(0x12);
    let r = Rfm95Driver::new(SimBus(chip.clone()), SimPin, BrokenPin, NoDelay);
    assert_eq!(r.err(), Some(Error::CommunicationFailure));
    assert_eq!(chip.borrow().transfers, 0);
}

#[test]
fn unsupported_revision_stops_after_version_read() {
    let chip = chip(0x10);
    let mut wire = Rfm95Connection::init(SimBus(chip.clone()), SimPin);
    let r = Rfm95Driver::bring_up(&mut wire, &mut SimPin, &mut NoDelay);
    assert_eq!(r, Err(Error::UnsupportedSiliconRevision));
    assert_eq!(chip.borrow().transfers, 1);
    assert_eq!(chip.borrow().regs[0x01], 0);
}

#[test]
fn rx_timeout_symbol_counts() {
    assert_eq!(rx_timeout_symbols(Duration::from_micros(1023 * 256), SpreadingFactor::S7, Bandwidth::B500), Ok(1023));
    assert_eq!(rx_timeout_symbols(Duration::from_micros(1024 * 256), SpreadingFactor::S7, Bandwidth::B500), Err(Error::TimeoutTooLarge));
    assert_eq!(rx_timeout_symbols(Duration::from_micros(1), SpreadingFactor::S12, Bandwidth::B7_8), Ok(1));
    assert_eq!(rx_timeout_symbols(Duration::from_micros(0), SpreadingFactor::S12, Bandwidth::B7_8), Ok(0));
}
