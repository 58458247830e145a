//! RFM95 driver for LoRa operations
//!
//! The modem's state lives in its registers and nowhere else: every getter reads the registers back, and
//! every operation writes what it needs. The contracts describe each operation by the register accesses it
//! makes (see [`Rfm95Driver::accesses`]) and by how the values read decide its result.
use crate::error::Error;
use crate::lora::airtime;
use crate::lora::config::Config;
use crate::lora::types::{
    Bandwidth, CodingRate, CrcMode, Duration, Frequency, HeaderMode, Polarity, PreambleLength,
    SpreadingFactor, SyncWord,
};
use crate::rfm95::connection::{accesses_carried_out, calls_since, failure_count, Access, Call, Rfm95Connection};
use crate::rfm95::registers::{
    DynamicRegister, RegField, Register, REGISTER_MAX, RegFifo, RegOpModeLongRangeMode, RegOpModeAccessSharedReg, RegOpModeLowFrequencyModeOn, RegOpModeMode, RegFrMsb, RegFrMid, RegFrLsb, RegPaConfig, RegFifoAddrPtr, RegFifoTxBaseAddr, RegFifoRxBaseAddr, RegFifoRxCurrentAddr, RegIrqFlagsMaskRxTimeoutMask, RegIrqFlagsMaskRxDoneMask, RegIrqFlagsMaskPayloadCrcErrorMask, RegIrqFlagsMaskTxDoneMask, RegIrqFlagsRxTimeout, RegIrqFlagsRxDone, RegIrqFlagsPayloadCrcError, RegIrqFlagsTxDone, RegRxNbBytes, RegPktSnrValue, RegPktRssiValue, RegRssiValue, RegModemConfig1Bw, RegModemConfig1CodingRate, RegModemConfig1ImplicitHeaderModeOn, RegModemConfig2SpreadingFactor, RegModemConfig2RxPayloadCrcOn, RegModemConfig2SymbTimeout98, RegSymbTimeoutLsb, RegPreambleMsb, RegPreambleLsb, RegPayloadLength, RegModemConfig3LowDataRateOptimize, RegInvertIQ, RegSyncWord, RegVersion,
};
use crate::rfm95::RFM95_FIFO_SIZE;
use embedded_hal::delay::DelayNs;
use embedded_hal::digital::OutputPin;
use embedded_hal::spi::SpiBus;
use vstd::prelude::*;

verus! {

/// The first supported silicon revision
pub const SILICON_REVISION_A: u8 = 0x11;

/// The second supported silicon revision
pub const SILICON_REVISION_B: u8 = 0x12;

/// The frequency divider to compute the frequency in milli-hertz
pub const FREQUENCY_DIVIDER_MILLIHZ: u64 = 61_035;

/// Frequencies below this are set in low-frequency mode, the others in high-frequency mode
pub const HIGH_FREQUENCY_THRESHOLD_HZ: u32 = 652_000_000;

/// The register value to put the device to LoRa mode
pub const REG_OPMODE_LONGRANGEMODE_LORA: u8 = 0b1;

/// The register value to set the shared registers to LoRa mode
pub const REG_OPMODE_ACCESSSHAREDREG_LORA: u8 = 0b0;

/// The operation mode to put the device to sleep
pub const REG_OPMODE_MODE_SLEEP: u8 = 0b000;

/// The operation mode to go into standby during LoRa mode
pub const REG_OPMODE_MODE_STANDBY: u8 = 0b001;

/// The operation mode to start a single LoRa TX transmission
pub const REG_OPMODE_MODE_TXSINGLE: u8 = 0b011;

/// The operation mode to start a single LoRa RX reception
pub const REG_OPMODE_MODE_RXSINGLE: u8 = 0b110;

/// The largest symbol count the RX timeout counter can hold
pub const RX_TIMEOUT_MAX_SYMBOLS: u32 = 1023;

/// When operating in the high frequency range the RSSI register values are offset by this much
pub const HF_RSSI_OFFSET: i16 = -157;

/// When operating in the low frequency range the RSSI register values are offset by this much
pub const LF_RSSI_OFFSET: i16 = -164;

/// The cutoff frequency that separates the high and low frequency ranges; anything below is LF
pub const HF_LF_BOUNDARY_HZ: u32 = 779_000_000;

/// The silicon revisions this driver knows how to talk to
pub open spec fn supported_revision(revision: u8) -> bool {
    revision == SILICON_REVISION_A || revision == SILICON_REVISION_B
}

/// The accesses made after `before`, given that `after` extends it
pub open spec fn since(before: Seq<Access>, after: Seq<Access>) -> Seq<Access> {
    after.subrange(before.len() as int, after.len() as int)
}

/// A single read of `field` whose value `decode` maps to the result, or fails to map to anything
pub open spec fn read_decoded<T>(
    accesses: Seq<Access>,
    field: RegField,
    r: Result<T, Error>,
    decode: spec_fn(u8) -> Option<T>,
) -> bool {
    match r {
        Ok(x) => accesses.len() == 1 && accesses[0] == Access::Read(field, accesses[0]->Read_1) && decode(
            accesses[0]->Read_1,
        ) == Some(x),
        Err(Error::InvalidParameterValue) => accesses.len() == 1 && accesses[0] == Access::Read(
            field,
            accesses[0]->Read_1,
        ) && decode(accesses[0]->Read_1) is None,
        Err(Error::CommunicationFailure) => accesses.len() == 0,
        Err(_) => false,
    }
}

/// A single write of `value` into `field`, or nothing at all when the bus failed
pub open spec fn wrote(accesses: Seq<Access>, field: RegField, value: u8, r: Result<(), Error>) -> bool {
    match r {
        Ok(()) => accesses == seq![Access::Write(field, value)],
        Err(e) => e == Error::CommunicationFailure && accesses.len() == 0,
    }
}

/// The accesses that bring a freshly reset modem into LoRa standby, after the revision check
pub open spec fn init_accesses() -> Seq<Access> {
    seq![
        Access::Write(RegOpModeMode.field(), REG_OPMODE_MODE_SLEEP),
        Access::Write(RegOpModeLongRangeMode.field(), REG_OPMODE_LONGRANGEMODE_LORA),
        Access::Write(RegOpModeMode.field(), REG_OPMODE_MODE_STANDBY),
        Access::Write(RegOpModeAccessSharedReg.field(), REG_OPMODE_ACCESSSHAREDREG_LORA),
        Access::Write(RegFifoTxBaseAddr.field(), 0x00),
        Access::Write(RegFifoRxBaseAddr.field(), 0x00),
        Access::Write(RegPaConfig.field(), 0xFF),
    ]
}

/// The reset pulse: the line low for at least 1 ms, then high and at least 10 ms for the chip to boot
pub open spec fn reset_calls() -> Seq<Call> {
    seq![Call::ResetLow(true), Call::DelayMs(1), Call::ResetHigh(true), Call::DelayMs(10)]
}

/// The calls start with the reset pulse, followed by bus activity
pub open spec fn booted(calls: Seq<Call>) -> bool {
    &&& calls.len() > 4
    &&& calls.take(4) == reset_calls()
    &&& calls[4] is SelectLow
}

/// Extending a log that extends another extends the first
proof fn lemma_calls_prefix_trans(a: Seq<Call>, b: Seq<Call>, c: Seq<Call>)
    requires
        a.is_prefix_of(b),
        b.is_prefix_of(c),
    ensures
        a.is_prefix_of(c),
        calls_since(a, c).take(calls_since(a, b).len() as int) == calls_since(a, b),
{
    assert(a =~= c.subrange(0, a.len() as int));
    assert(calls_since(a, c).take(calls_since(a, b).len() as int) =~= calls_since(a, b));
}

/// The calls since `a` are those up to `b` followed by those after it
proof fn lemma_since_split_calls(a: Seq<Call>, b: Seq<Call>, c: Seq<Call>)
    requires
        a.is_prefix_of(b),
        b.is_prefix_of(c),
    ensures
        calls_since(a, c) == calls_since(a, b) + calls_since(b, c),
{
    assert(calls_since(a, c) =~= calls_since(a, b) + calls_since(b, c));
}

/// Checks a silicon revision against the supported ones
pub fn check_silicon_revision(revision: u8) -> (r: Result<(), Error>)
    ensures
        r is Ok <==> supported_revision(revision),
        r is Err ==> r == Err::<(), Error>(Error::UnsupportedSiliconRevision),
{
    if revision == SILICON_REVISION_A || revision == SILICON_REVISION_B {
        Ok(())
    } else {
        Err(Error::UnsupportedSiliconRevision)
    }
}

/// The low-datarate-optimization flag for a spreading factor and bandwidth, as a register bit
pub open spec fn ldo_bit(spreading_factor: SpreadingFactor, bandwidth: Bandwidth) -> u8 {
    if airtime::spec_needs_ldo(spreading_factor, bandwidth) {
        1
    } else {
        0
    }
}

/// A read of `field` whose value `decode` does not map to anything
pub open spec fn undecodable_read<T>(accesses: Seq<Access>, field: RegField, decode: spec_fn(u8) -> Option<T>) -> bool {
    &&& accesses.len() == 1
    &&& accesses[0] == Access::Read(field, accesses[0]->Read_1)
    &&& decode(accesses[0]->Read_1) is None
}

/// A read of `field` whose value `decode` maps to something
pub open spec fn decodable_read<T>(access: Access, field: RegField, decode: spec_fn(u8) -> Option<T>) -> bool {
    access == Access::Read(field, access->Read_1) && decode(access->Read_1) is Some
}

/// The bus failed before any read that decides the result could be completed: nothing was accessed, or
/// only a read that decoded, and whatever else did not complete
pub open spec fn failed_after_decodable<T>(accesses: Seq<Access>, field: RegField, decode: spec_fn(u8) -> Option<T>, most: int) -> bool {
    ||| accesses.len() == 0
    ||| (1 <= accesses.len() < most && decodable_read(accesses[0], field, decode))
}

/// Setting the spreading factor: the bandwidth is read, then the spreading factor and the LDO flag for the
/// pair are written
pub open spec fn spreading_factor_update(accesses: Seq<Access>, spreading_factor: SpreadingFactor) -> bool {
    let raw = accesses[0]->Read_1;
    let bandwidth = Bandwidth::spec_from_u8(raw)->Some_0;
    &&& accesses.len() == 3
    &&& accesses[0] == Access::Read(RegModemConfig1Bw.field(), raw)
    &&& Bandwidth::spec_from_u8(raw) is Some
    &&& accesses[1] == Access::Write(RegModemConfig2SpreadingFactor.field(), spreading_factor.spec_as_u8())
    &&& accesses[2] == Access::Write(RegModemConfig3LowDataRateOptimize.field(), ldo_bit(spreading_factor, bandwidth))
}

/// Setting the bandwidth: the spreading factor is read, then the bandwidth and the LDO flag for the pair are
/// written
pub open spec fn bandwidth_update(accesses: Seq<Access>, bandwidth: Bandwidth) -> bool {
    let raw = accesses[0]->Read_1;
    let spreading_factor = SpreadingFactor::spec_from_u8(raw)->Some_0;
    &&& accesses.len() == 3
    &&& accesses[0] == Access::Read(RegModemConfig2SpreadingFactor.field(), raw)
    &&& SpreadingFactor::spec_from_u8(raw) is Some
    &&& accesses[1] == Access::Write(RegModemConfig1Bw.field(), bandwidth.spec_as_u8())
    &&& accesses[2] == Access::Write(RegModemConfig3LowDataRateOptimize.field(), ldo_bit(spreading_factor, bandwidth))
}

/// The preamble length registers, most significant byte first
pub open spec fn preamble_writes(len: PreambleLength) -> Seq<Access> {
    seq![
        Access::Write(RegPreambleMsb.field(), (len.spec_as_u16() / 256) as u8),
        Access::Write(RegPreambleLsb.field(), (len.spec_as_u16() % 256) as u8),
    ]
}

/// The number of synthesizer ticks (61.035 Hz each) below a frequency, rounded down
pub open spec fn spec_frequency_ticks(hz: u32) -> int {
    hz * 1000 / FREQUENCY_DIVIDER_MILLIHZ as int
}

/// The frequency in Hz of a synthesizer tick count, rounded down
pub open spec fn spec_frequency_hz(ticks: int) -> int {
    ticks * FREQUENCY_DIVIDER_MILLIHZ as int / 1000
}

/// The synthesizer tick count held by the three frequency registers
pub open spec fn spec_ticks_of(msb: u8, mid: u8, lsb: u8) -> int {
    msb * 65536 + mid * 256 + lsb
}

/// Setting the frequency: the low-frequency-mode bit (set below 652 MHz), then the tick count as three
/// big-endian bytes
pub open spec fn frequency_writes(frequency: Frequency) -> Seq<Access> {
    let ticks = spec_frequency_ticks(frequency.spec_as_u32());
    seq![
        Access::Write(
            RegOpModeLowFrequencyModeOn.field(),
            if frequency.spec_as_u32() < HIGH_FREQUENCY_THRESHOLD_HZ { 1 } else { 0 },
        ),
        Access::Write(RegFrMsb.field(), ((ticks / 65536) % 256) as u8),
        Access::Write(RegFrMid.field(), ((ticks / 256) % 256) as u8),
        Access::Write(RegFrLsb.field(), (ticks % 256) as u8),
    ]
}

/// Applying a whole configuration: every field in turn, spreading factor first and frequency last
pub open spec fn config_update(accesses: Seq<Access>, config: Config) -> bool {
    &&& accesses.len() == 17
    &&& spreading_factor_update(accesses.subrange(0, 3), config.spec_spreading_factor())
    &&& bandwidth_update(accesses.subrange(3, 6), config.spec_bandwidth())
    &&& accesses.subrange(6, 17) == seq![
        Access::Write(RegModemConfig1CodingRate.field(), config.spec_coding_rate().spec_as_u8()),
        Access::Write(RegInvertIQ.field(), config.spec_polarity().spec_as_u8()),
        Access::Write(RegModemConfig1ImplicitHeaderModeOn.field(), config.spec_header_mode().spec_as_u8()),
        Access::Write(RegModemConfig2RxPayloadCrcOn.field(), config.spec_crc_mode().spec_as_u8()),
        Access::Write(RegSyncWord.field(), config.spec_sync_word().spec_as_u8()),
    ] + preamble_writes(config.spec_preamble_len()) + frequency_writes(config.spec_frequency())
}

/// The accesses since `a` are those up to `b` followed by those after it
proof fn lemma_since_split(a: Seq<Access>, b: Seq<Access>, c: Seq<Access>)
    requires
        a.is_prefix_of(b),
        b.is_prefix_of(c),
    ensures
        a.is_prefix_of(c),
        since(a, c) == since(a, b) + since(b, c),
{
    assert(since(a, c) =~= since(a, b) + since(b, c));
}

/// The accesses of the individual setters, in order, make up a whole configuration update
proof fn lemma_config_update(
    e: Seq<Access>,
    sf: Seq<Access>,
    bw: Seq<Access>,
    fields: Seq<Access>,
    preamble: Seq<Access>,
    frequency: Seq<Access>,
    config: Config,
)
    requires
        e == sf + (bw + (fields + (preamble + frequency))),
        spreading_factor_update(sf, config.spec_spreading_factor()),
        bandwidth_update(bw, config.spec_bandwidth()),
        fields == seq![
            Access::Write(RegModemConfig1CodingRate.field(), config.spec_coding_rate().spec_as_u8()),
            Access::Write(RegInvertIQ.field(), config.spec_polarity().spec_as_u8()),
            Access::Write(RegModemConfig1ImplicitHeaderModeOn.field(), config.spec_header_mode().spec_as_u8()),
            Access::Write(RegModemConfig2RxPayloadCrcOn.field(), config.spec_crc_mode().spec_as_u8()),
            Access::Write(RegSyncWord.field(), config.spec_sync_word().spec_as_u8()),
        ],
        preamble == preamble_writes(config.spec_preamble_len()),
        frequency == frequency_writes(config.spec_frequency()),
    ensures
        config_update(e, config),
{
    assert(e.subrange(0, 3) =~= sf);
    assert(e.subrange(3, 6) =~= bw);
    assert(e.subrange(6, 17) =~= fields + preamble + frequency);
}

/// Loading `data` into the FIFO: for each byte, the address pointer is set to its index and the byte written
pub open spec fn fifo_load(data: Seq<u8>) -> Seq<Access>
    decreases data.len(),
{
    if data.len() == 0 {
        Seq::empty()
    } else {
        fifo_load(data.drop_last()) + seq![
            Access::Write(RegFifoAddrPtr.field(), (data.len() - 1) as u8),
            Access::Write(RegFifo.field(), data.last()),
        ]
    }
}

/// Starting a transmission: the payload is loaded into the FIFO, its length set, the TX-done interrupt
/// enabled and cleared, and single-TX mode entered
pub open spec fn tx_start_accesses(data: Seq<u8>) -> Seq<Access> {
    fifo_load(data) + seq![
        Access::Write(RegPayloadLength.field(), data.len() as u8),
        Access::Write(RegIrqFlagsMaskTxDoneMask.field(), 0),
        Access::Write(RegIrqFlagsTxDone.field(), 1),
        Access::Write(RegOpModeMode.field(), REG_OPMODE_MODE_TXSINGLE),
    ]
}

/// A payload the FIFO can hold: at least one byte, and no more than its capacity
pub open spec fn valid_payload_len(len: int) -> bool {
    1 <= len <= RFM95_FIFO_SIZE
}

/// Reading the modulation: the spreading factor, then the bandwidth, both decoding to known values
pub open spec fn modulation_read(accesses: Seq<Access>) -> bool {
    &&& accesses.len() == 2
    &&& accesses[0] == Access::Read(RegModemConfig2SpreadingFactor.field(), accesses[0]->Read_1)
    &&& SpreadingFactor::spec_from_u8(accesses[0]->Read_1) is Some
    &&& accesses[1] == Access::Read(RegModemConfig1Bw.field(), accesses[1]->Read_1)
    &&& Bandwidth::spec_from_u8(accesses[1]->Read_1) is Some
}

/// Reading the modulation failed on a value that decodes to nothing
pub open spec fn modulation_undecodable(accesses: Seq<Access>) -> bool {
    ||| undecodable_read(accesses, RegModemConfig2SpreadingFactor.field(), |v: u8| SpreadingFactor::spec_from_u8(v))
    ||| {
        &&& accesses.len() == 2
        &&& accesses[0] == Access::Read(RegModemConfig2SpreadingFactor.field(), accesses[0]->Read_1)
        &&& SpreadingFactor::spec_from_u8(accesses[0]->Read_1) is Some
        &&& undecodable_read(accesses.skip(1), RegModemConfig1Bw.field(), |v: u8| Bandwidth::spec_from_u8(v))
    }
}

/// The symbol airtime in microseconds for the modulation that `modulation_read` read
pub open spec fn read_symbol_micros(accesses: Seq<Access>) -> u64 {
    airtime::spec_symbol_micros(
        SpreadingFactor::spec_from_u8(accesses[0]->Read_1)->Some_0,
        Bandwidth::spec_from_u8(accesses[1]->Read_1)->Some_0,
    )
}

/// The number of whole symbols that cover a timeout, rounded up
pub open spec fn timeout_symbols(timeout_micros: u64, symbol_micros: u64) -> int {
    airtime::spec_ceildiv(timeout_micros as int, symbol_micros as int)
}

/// The symbol count of an RX timeout: the timeout rounded up to whole symbols of the given modulation, if
/// that is below 1024 (what the modem's 10-bit counter holds)
pub fn rx_timeout_symbols(timeout: Duration, spreading_factor: SpreadingFactor, bandwidth: Bandwidth) -> (r: Result<u32, Error>)
    ensures
        ({
            let symbols = timeout_symbols(timeout.spec_micros(), airtime::spec_symbol_micros(spreading_factor, bandwidth));
            match r {
                Ok(count) => symbols < 1024 && count == symbols,
                Err(e) => symbols >= 1024 && e == Error::TimeoutTooLarge,
            }
        }),
{
    proof {
        airtime::lemma_symbol_micros_range(spreading_factor, bandwidth);
    }
    let symbol_airtime_micros = airtime::symbol_airtime(spreading_factor, bandwidth).as_micros() as i32;
    let micros = timeout.as_micros();
    if micros > i32::MAX as u64 {
        // Even the longest symbol fits more than 1023 times into this
        assert(airtime::spec_ceildiv(micros as int, symbol_airtime_micros as int) >= 1024) by (nonlinear_arith)
            requires
                micros > 0x7FFF_FFFF,
                0 < symbol_airtime_micros <= 524288,
                airtime::spec_ceildiv(micros as int, symbol_airtime_micros as int) == (micros as int
                    + symbol_airtime_micros - 1) / (symbol_airtime_micros as int),
        ;
        return Err(Error::TimeoutTooLarge);
    }
    let timeout_micros = micros as i32;
    proof {
        airtime::lemma_ceildiv_bounds(timeout_micros, symbol_airtime_micros);
    }
    let symbols = airtime::ceildiv(timeout_micros, symbol_airtime_micros) as u32;
    if symbols >= 1024 {
        // This timeout is too large to be configured
        return Err(Error::TimeoutTooLarge);
    }
    Ok(symbols)
}

/// Starting a reception: the symbol timeout, the FIFO pointer reset, the RX interrupts enabled and cleared,
/// and single-RX mode entered
pub open spec fn rx_start_writes(symbols: int) -> Seq<Access> {
    seq![
        Access::Write(RegModemConfig2SymbTimeout98.field(), (symbols / 256) as u8),
        Access::Write(RegSymbTimeoutLsb.field(), (symbols % 256) as u8),
        Access::Write(RegFifoAddrPtr.field(), 0),
        Access::Write(RegIrqFlagsMaskRxDoneMask.field(), 0),
        Access::Write(RegIrqFlagsMaskRxTimeoutMask.field(), 0),
        Access::Write(RegIrqFlagsMaskPayloadCrcErrorMask.field(), 0),
        Access::Write(RegIrqFlagsRxDone.field(), 1),
        Access::Write(RegIrqFlagsRxTimeout.field(), 1),
        Access::Write(RegIrqFlagsPayloadCrcError.field(), 1),
        Access::Write(RegOpModeMode.field(), REG_OPMODE_MODE_RXSINGLE),
    ]
}

/// Reading a received packet out of the FIFO from address `start` on: for each byte, the address pointer is
/// set (wrapping around at the end of the FIFO) and the byte read
pub open spec fn fifo_unload(start: u8, bytes: Seq<u8>) -> Seq<Access>
    decreases bytes.len(),
{
    if bytes.len() == 0 {
        Seq::empty()
    } else {
        fifo_unload(start, bytes.drop_last()) + seq![
            Access::Write(RegFifoAddrPtr.field(), ((start + bytes.len() - 1) % 256) as u8),
            Access::Read(RegFifo.field(), bytes.last()),
        ]
    }
}

/// Unloading takes two accesses per byte
proof fn lemma_fifo_unload_len(start: u8, bytes: Seq<u8>)
    ensures
        fifo_unload(start, bytes).len() == 2 * bytes.len(),
    decreases bytes.len(),
{
    if bytes.len() > 0 {
        lemma_fifo_unload_len(start, bytes.drop_last());
    }
}

/// The status reads of a reception that is done without error
pub open spec fn rx_done_flags() -> Seq<Access> {
    seq![
        Access::Read(RegIrqFlagsRxTimeout.field(), 0),
        Access::Read(RegIrqFlagsPayloadCrcError.field(), 0),
        Access::Read(RegIrqFlagsRxDone.field(), 1),
    ]
}

/// Reading the carrier frequency: the three frequency registers, most significant first
pub open spec fn frequency_read(accesses: Seq<Access>) -> bool {
    &&& accesses.len() >= 3
    &&& accesses[0] == Access::Read(RegFrMsb.field(), accesses[0]->Read_1)
    &&& accesses[1] == Access::Read(RegFrMid.field(), accesses[1]->Read_1)
    &&& accesses[2] == Access::Read(RegFrLsb.field(), accesses[2]->Read_1)
}

/// The frequency in Hz that `frequency_read` read
pub open spec fn read_frequency_hz(accesses: Seq<Access>) -> int {
    spec_frequency_hz(spec_ticks_of(accesses[0]->Read_1, accesses[1]->Read_1, accesses[2]->Read_1))
}

/// A register byte read as a two's-complement number
pub open spec fn signed_byte(raw: u8) -> int {
    if raw < 128 {
        raw as int
    } else {
        raw - 256
    }
}

/// The SNR in dB of a packet-SNR register value: quarter dB steps, divided by 4 towards zero
pub open spec fn spec_snr(raw: u8) -> int {
    airtime::trunc_div(signed_byte(raw), 4)
}

/// The RSSI offset of the frequency band: high band from the boundary on when `inclusive`, above it otherwise
pub open spec fn rssi_offset(hz: int, inclusive: bool) -> int {
    if (inclusive && hz >= HF_LF_BOUNDARY_HZ) || (!inclusive && hz > HF_LF_BOUNDARY_HZ) {
        HF_RSSI_OFFSET as int
    } else {
        LF_RSSI_OFFSET as int
    }
}

/// Reading the packet SNR: the frequency, then the SNR register
pub open spec fn snr_read(accesses: Seq<Access>) -> bool {
    &&& frequency_read(accesses)
    &&& accesses.len() >= 4
    &&& accesses[3] == Access::Read(RegPktSnrValue.field(), accesses[3]->Read_1)
}

/// Setting a frequency and reading the three frequency registers back gives the frequency rounded down to
/// the tick grid: at most 62 Hz below it, as both conversions round down. This holds wherever the tick count
/// fits the 24 register bits, which covers every frequency below 1 GHz.
pub proof fn lemma_frequency_round_trip(frequency: Frequency)
    requires
        spec_frequency_ticks(frequency.spec_as_u32()) < 0x100_0000,
    ensures
        ({
            let w = frequency_writes(frequency);
            let back = spec_frequency_hz(spec_ticks_of(w[1]->Write_1, w[2]->Write_1, w[3]->Write_1));
            frequency.spec_as_u32() - 62 <= back <= frequency.spec_as_u32()
        }),
{
    let hz = frequency.spec_as_u32() as int;
    let ticks = spec_frequency_ticks(frequency.spec_as_u32());
    let w = frequency_writes(frequency);
    assert(spec_ticks_of(w[1]->Write_1, w[2]->Write_1, w[3]->Write_1) == ticks) by {
        assert(((ticks / 65536) % 256) * 65536 + ((ticks / 256) % 256) * 256 + ticks % 256 == ticks) by (nonlinear_arith)
            requires
                0 <= ticks < 0x100_0000,
        ;
    }
    assert(ticks * 61035 <= hz * 1000 < (ticks + 1) * 61035) by (nonlinear_arith)
        requires
            ticks == hz * 1000 / 61035,
            hz >= 0,
    ;
    let back = ticks * 61035 / 1000;
    assert(back * 1000 <= ticks * 61035 < (back + 1) * 1000) by (nonlinear_arith)
        requires
            back == ticks * 61035 / 1000,
            ticks >= 0,
    ;
}

/// Raw SPI command interface for RFM95
pub struct Rfm95Driver<Bus, Select> {
    /// The SPI connection to the RFM95 radio
    spi: Rfm95Connection<Bus, Select>,
}

impl<Bus: SpiBus, Select: OutputPin> Rfm95Driver<Bus, Select> {
    /// The register accesses this driver has completed, oldest first
    pub closed spec fn accesses(&self) -> Seq<Access> {
        self.spi.accesses()
    }

    /// The calls this driver has made on the reset line, the timer and the bus, oldest first
    pub closed spec fn calls(&self) -> Seq<Call> {
        self.spi.calls()
    }

    /// For each completed access, where its select cycles start among the calls
    pub closed spec fn access_starts(&self) -> Seq<int> {
        self.spi.access_starts()
    }

    /// Every completed register access was carried out by its own successful select cycles, in the order of
    /// the accesses
    pub open spec fn wf(&self) -> bool {
        accesses_carried_out(self.accesses(), self.access_starts(), self.calls())
    }

    /// Resets the chip behind `wire`, checks its silicon revision and brings it into LoRa standby
    ///
    /// The reset line is held low for 1 ms and then high for 10 ms before the chip is addressed. The silicon
    /// revision is checked, then the modem is put to LoRa mode and standby, both FIFO base addresses are set to
    /// 0 and the power amplifier to maximum. All other settings are left untouched.
    pub fn bring_up<Reset: OutputPin, Timer: DelayNs>(
        wire: &mut Rfm95Connection<Bus, Select>,
        reset: &mut Reset,
        timer: &mut Timer,
    ) -> (r: Result<(), Error>)
        requires
            accesses_carried_out(old(wire).accesses(), old(wire).access_starts(), old(wire).calls()),
        ensures
            accesses_carried_out(final(wire).accesses(), final(wire).access_starts(), final(wire).calls()),
            old(wire).calls().is_prefix_of(final(wire).calls()),
            old(wire).accesses().is_prefix_of(final(wire).accesses()),
            ({
                let c = calls_since(old(wire).calls(), final(wire).calls());
                let e = since(old(wire).accesses(), final(wire).accesses());
                &&& c.len() >= 1
                &&& c[0] == Call::ResetLow(c[0]->ResetLow_0)
                &&& c[0] == Call::ResetLow(false) ==> c.len() == 1 && r == Err::<(), Error>(Error::CommunicationFailure)
                    && e.len() == 0
                &&& c[0] == Call::ResetLow(true) ==> c.len() >= 3 && c[1] == Call::DelayMs(1) && c[2] == Call::ResetHigh(
                    c[2]->ResetHigh_0,
                )
                &&& (c.len() >= 3 && c[2] == Call::ResetHigh(false)) ==> c.len() == 3 && r == Err::<(), Error>(
                    Error::CommunicationFailure,
                ) && e.len() == 0
                &&& (c.len() >= 3 && c[2] == Call::ResetHigh(true)) ==> c.len() > 4 && c.take(4) == reset_calls()
                    && c[4] is SelectLow
                &&& match r {
                    Ok(()) => {
                        &&& e.len() == 1 + init_accesses().len()
                        &&& e[0] == Access::Read(RegVersion.field(), e[0]->Read_1)
                        &&& supported_revision(e[0]->Read_1)
                        &&& e.skip(1) == init_accesses()
                    },
                    Err(Error::UnsupportedSiliconRevision) => {
                        &&& e.len() == 1
                        &&& e[0] == Access::Read(RegVersion.field(), e[0]->Read_1)
                        &&& !supported_revision(e[0]->Read_1)
                        &&& c.len() == 7
                    },
                    Err(Error::CommunicationFailure) => e.len() == 0 || (e[0] == Access::Read(
                        RegVersion.field(),
                        e[0]->Read_1,
                    ) && supported_revision(e[0]->Read_1)),
                    Err(_) => false,
                }
                &&& (e.len() >= 1 && e[0] == Access::Read(RegVersion.field(), e[0]->Read_1) && !supported_revision(
                    e[0]->Read_1,
                )) ==> r == Err::<(), Error>(Error::UnsupportedSiliconRevision)
            }),
            (r matches Err(Error::CommunicationFailure)) <==> failure_count(final(wire).calls()) > failure_count(
                old(wire).calls(),
            ),
            failure_count(final(wire).calls()) >= failure_count(old(wire).calls()),
    {
        let ghost start = wire.calls();
        let ghost first_access = wire.accesses();
        Self::pulse_reset(wire, reset, timer)?;
        let ghost booted = wire.calls();

        // Validate chip revision to assure the protocol matches
        let revision = wire.read(RegVersion);
        let ghost probed = wire.calls();
        proof {
            lemma_calls_prefix_trans(start, booted, probed);
            lemma_since_split_calls(start, booted, probed);
            assert(calls_since(start, probed).take(4) =~= reset_calls());
            assert(calls_since(start, probed)[4] == calls_since(booted, probed)[0]);
        }
        let silicon_revision = revision?;
        assert(since(first_access, wire.accesses()) =~= seq![Access::Read(RegVersion.field(), silicon_revision)]);
        if check_silicon_revision(silicon_revision).is_err() {
            return Err(Error::UnsupportedSiliconRevision);
        }
        let ghost probed_access = wire.accesses();

        // Go to sleep, switch to LoRa and enter standby, then use the entire FIFO for both directions and the
        // power amplifier at maximum
        let standby = Self::enter_standby(wire);
        proof {
            lemma_calls_prefix_trans(start, probed, wire.calls());
            assert(calls_since(start, wire.calls()).take(4) =~= calls_since(start, probed).take(4));
            assert(calls_since(start, wire.calls())[4] == calls_since(start, probed)[4]);
            assert(since(first_access, wire.accesses())[0] == since(first_access, probed_access)[0]);
        }
        standby?;
        assert(since(first_access, wire.accesses()).skip(1) =~= since(probed_access, wire.accesses()));
        Ok(())
    }

    /// Pulses the reset line: low, 1 ms, high, 10 ms; a failed line call ends the pulse
    fn pulse_reset<Reset: OutputPin, Timer: DelayNs>(
        wire: &mut Rfm95Connection<Bus, Select>,
        reset: &mut Reset,
        timer: &mut Timer,
    ) -> (r: Result<(), Error>)
        requires
            accesses_carried_out(old(wire).accesses(), old(wire).access_starts(), old(wire).calls()),
        ensures
            accesses_carried_out(final(wire).accesses(), final(wire).access_starts(), final(wire).calls()),
            old(wire).calls().is_prefix_of(final(wire).calls()),
            final(wire).accesses() == old(wire).accesses(),
            match r {
                Ok(()) => calls_since(old(wire).calls(), final(wire).calls()) == reset_calls(),
                Err(e) => {
                    &&& e == Error::CommunicationFailure
                    &&& calls_since(old(wire).calls(), final(wire).calls()) == seq![Call::ResetLow(false)]
                        || calls_since(old(wire).calls(), final(wire).calls()) == seq![
                        Call::ResetLow(true),
                        Call::DelayMs(1),
                        Call::ResetHigh(false),
                    ]
                },
            },
            r is Ok <==> failure_count(final(wire).calls()) == failure_count(old(wire).calls()),
            failure_count(final(wire).calls()) >= failure_count(old(wire).calls()),
    {
        let ghost start = wire.calls();
        // Pull reset to low and wait until the reset is triggered
        let pulled = wire.reset_low(reset);
        if pulled.is_err() {
            assert(calls_since(start, wire.calls()) =~= seq![Call::ResetLow(false)]);
            return Err(Error::CommunicationFailure);
        }
        wire.wait_ms(timer, 1);

        // Pull reset to high again and give the chip some time to boot
        let released = wire.reset_high(reset);
        if released.is_err() {
            assert(calls_since(start, wire.calls()) =~= seq![Call::ResetLow(true), Call::DelayMs(1), Call::ResetHigh(false)]);
            return Err(Error::CommunicationFailure);
        }
        wire.wait_ms(timer, 10);
        assert(calls_since(start, wire.calls()) =~= reset_calls());
        Ok(())
    }

    /// Puts the modem to sleep, switches it to LoRa, enters standby, sets both FIFO base addresses to 0 and the
    /// power amplifier to maximum
    fn enter_standby(wire: &mut Rfm95Connection<Bus, Select>) -> (r: Result<(), Error>)
        requires
            accesses_carried_out(old(wire).accesses(), old(wire).access_starts(), old(wire).calls()),
        ensures
            accesses_carried_out(final(wire).accesses(), final(wire).access_starts(), final(wire).calls()),
            old(wire).calls().is_prefix_of(final(wire).calls()),
            old(wire).accesses().is_prefix_of(final(wire).accesses()),
            match r {
                Ok(()) => since(old(wire).accesses(), final(wire).accesses()) == init_accesses(),
                Err(e) => e == Error::CommunicationFailure,
            },
            r is Ok <==> failure_count(final(wire).calls()) == failure_count(old(wire).calls()),
            failure_count(final(wire).calls()) >= failure_count(old(wire).calls()),
    {
        let ghost start = wire.calls();
        let ghost before = wire.calls();
        let written = wire.write(RegOpModeMode, REG_OPMODE_MODE_SLEEP);
        proof {
            lemma_calls_prefix_trans(start, before, wire.calls());
        }
        written?;
        let ghost before = wire.calls();
        let written = wire.write(RegOpModeLongRangeMode, REG_OPMODE_LONGRANGEMODE_LORA);
        proof {
            lemma_calls_prefix_trans(start, before, wire.calls());
        }
        written?;
        let ghost before = wire.calls();
        let written = wire.write(RegOpModeMode, REG_OPMODE_MODE_STANDBY);
        proof {
            lemma_calls_prefix_trans(start, before, wire.calls());
        }
        written?;
        let ghost before = wire.calls();
        let written = wire.write(RegOpModeAccessSharedReg, REG_OPMODE_ACCESSSHAREDREG_LORA);
        proof {
            lemma_calls_prefix_trans(start, before, wire.calls());
        }
        written?;
        let ghost before = wire.calls();
        let written = wire.write(RegFifoTxBaseAddr, 0x00);
        proof {
            lemma_calls_prefix_trans(start, before, wire.calls());
        }
        written?;
        let ghost before = wire.calls();
        let written = wire.write(RegFifoRxBaseAddr, 0x00);
        proof {
            lemma_calls_prefix_trans(start, before, wire.calls());
        }
        written?;
        let ghost before = wire.calls();
        let written = wire.write(RegPaConfig, 0xFF);
        proof {
            lemma_calls_prefix_trans(start, before, wire.calls());
        }
        written?;
        assert(since(old(wire).accesses(), wire.accesses()) =~= init_accesses());
        Ok(())
    }

    /// Creates a new raw SPI command interface for RFM95, bringing the chip up with [`Self::bring_up`]
    ///
    /// This blocks for at least 11 ms plus the time of the bus transactions.
    pub fn new<Reset: OutputPin, Timer: DelayNs>(bus: Bus, select: Select, reset: Reset, timer: Timer) -> (r:
        Result<Self, Error>)
        ensures
            r matches Ok(driver) ==> {
                &&& driver.accesses().len() == 1 + init_accesses().len()
                &&& driver.accesses()[0] == Access::Read(RegVersion.field(), driver.accesses()[0]->Read_1)
                &&& supported_revision(driver.accesses()[0]->Read_1)
                &&& driver.accesses().skip(1) == init_accesses()
                &&& booted(driver.calls())
                &&& failure_count(driver.calls()) == 0
                &&& driver.wf()
            },
            r matches Err(e) ==> e == Error::CommunicationFailure || e == Error::UnsupportedSiliconRevision,
    {
        let mut reset = reset;
        let mut timer = timer;
        let mut wire = Rfm95Connection::init(bus, select);
        let ghost empty_calls = wire.calls();
        let ghost empty_accesses = wire.accesses();
        Self::bring_up(&mut wire, &mut reset, &mut timer)?;
        assert(calls_since(empty_calls, wire.calls()) =~= wire.calls());
        assert(since(empty_accesses, wire.accesses()) =~= wire.accesses());
        Ok(Rfm95Driver { spi: wire })
    }

    /// The current spreading factor
    pub fn spreading_factor(&mut self) -> (r: Result<SpreadingFactor, Error>)
        requires
            old(self).wf(),
        ensures
            final(self).wf(),
            (r matches Err(Error::CommunicationFailure)) <==> failure_count(final(self).calls()) > failure_count(
                old(self).calls(),
            ),
            failure_count(final(self).calls()) >= failure_count(old(self).calls()),
            old(self).accesses().is_prefix_of(final(self).accesses()),
            read_decoded(
                since(old(self).accesses(), final(self).accesses()),
                RegModemConfig2SpreadingFactor.field(),
                r,
                |v: u8| SpreadingFactor::spec_from_u8(v),
            ),
    {
        let spreading_factor = self.spi.read(RegModemConfig2SpreadingFactor)?;
        let r = SpreadingFactor::from_u8(spreading_factor);
        assert(since(old(self).accesses(), self.accesses()) =~= seq![
            Access::Read(RegModemConfig2SpreadingFactor.field(), spreading_factor),
        ]);
        r
    }

    /// The current bandwidth
    pub fn bandwidth(&mut self) -> (r: Result<Bandwidth, Error>)
        requires
            old(self).wf(),
        ensures
            final(self).wf(),
            (r matches Err(Error::CommunicationFailure)) <==> failure_count(final(self).calls()) > failure_count(
                old(self).calls(),
            ),
            failure_count(final(self).calls()) >= failure_count(old(self).calls()),
            old(self).accesses().is_prefix_of(final(self).accesses()),
            read_decoded(
                since(old(self).accesses(), final(self).accesses()),
                RegModemConfig1Bw.field(),
                r,
                |v: u8| Bandwidth::spec_from_u8(v),
            ),
    {
        let raw = self.spi.read(RegModemConfig1Bw)?;
        let r = Bandwidth::from_u8(raw);
        assert(since(old(self).accesses(), self.accesses()) =~= seq![Access::Read(RegModemConfig1Bw.field(), raw)]);
        r
    }

    /// The current coding rate
    pub fn coding_rate(&mut self) -> (r: Result<CodingRate, Error>)
        requires
            old(self).wf(),
        ensures
            final(self).wf(),
            (r matches Err(Error::CommunicationFailure)) <==> failure_count(final(self).calls()) > failure_count(
                old(self).calls(),
            ),
            failure_count(final(self).calls()) >= failure_count(old(self).calls()),
            old(self).accesses().is_prefix_of(final(self).accesses()),
            read_decoded(
                since(old(self).accesses(), final(self).accesses()),
                RegModemConfig1CodingRate.field(),
                r,
                |v: u8| CodingRate::spec_from_u8(v),
            ),
    {
        let raw = self.spi.read(RegModemConfig1CodingRate)?;
        let r = CodingRate::from_u8(raw);
        assert(since(old(self).accesses(), self.accesses()) =~= seq![Access::Read(RegModemConfig1CodingRate.field(), raw)]);
        r
    }

    /// Sets the coding rate
    pub fn set_coding_rate(&mut self, coding_rate: CodingRate) -> (r: Result<(), Error>)
        requires
            old(self).wf(),
        ensures
            final(self).wf(),
            (r matches Err(Error::CommunicationFailure)) <==> failure_count(final(self).calls()) > failure_count(
                old(self).calls(),
            ),
            failure_count(final(self).calls()) >= failure_count(old(self).calls()),
            old(self).accesses().is_prefix_of(final(self).accesses()),
            wrote(since(old(self).accesses(), final(self).accesses()), RegModemConfig1CodingRate.field(), coding_rate.spec_as_u8(), r),
    {
        let value = coding_rate.as_u8();
        let r = self.spi.write(RegModemConfig1CodingRate, value);
        proof {
            if r is Ok {
                assert(since(old(self).accesses(), self.accesses()) =~= seq![Access::Write(RegModemConfig1CodingRate.field(), value)]);
            } else {
                assert(since(old(self).accesses(), self.accesses()) =~= Seq::<Access>::empty());
            }
        }
        r
    }

    /// The current IQ polarity
    pub fn polarity(&mut self) -> (r: Result<Polarity, Error>)
        requires
            old(self).wf(),
        ensures
            final(self).wf(),
            (r matches Err(Error::CommunicationFailure)) <==> failure_count(final(self).calls()) > failure_count(
                old(self).calls(),
            ),
            failure_count(final(self).calls()) >= failure_count(old(self).calls()),
            old(self).accesses().is_prefix_of(final(self).accesses()),
            read_decoded(
                since(old(self).accesses(), final(self).accesses()),
                RegInvertIQ.field(),
                r,
                |v: u8| Polarity::spec_from_u8(v),
            ),
    {
        let raw = self.spi.read(RegInvertIQ)?;
        let r = Polarity::from_u8(raw);
        assert(since(old(self).accesses(), self.accesses()) =~= seq![Access::Read(RegInvertIQ.field(), raw)]);
        r
    }

    /// Sets the IQ polarity
    pub fn set_polarity(&mut self, polarity: Polarity) -> (r: Result<(), Error>)
        requires
            old(self).wf(),
        ensures
            final(self).wf(),
            (r matches Err(Error::CommunicationFailure)) <==> failure_count(final(self).calls()) > failure_count(
                old(self).calls(),
            ),
            failure_count(final(self).calls()) >= failure_count(old(self).calls()),
            old(self).accesses().is_prefix_of(final(self).accesses()),
            wrote(since(old(self).accesses(), final(self).accesses()), RegInvertIQ.field(), polarity.spec_as_u8(), r),
    {
        let value = polarity.as_u8();
        let r = self.spi.write(RegInvertIQ, value);
        proof {
            if r is Ok {
                assert(since(old(self).accesses(), self.accesses()) =~= seq![Access::Write(RegInvertIQ.field(), value)]);
            } else {
                assert(since(old(self).accesses(), self.accesses()) =~= Seq::<Access>::empty());
            }
        }
        r
    }

    /// The current header mode
    pub fn header_mode(&mut self) -> (r: Result<HeaderMode, Error>)
        requires
            old(self).wf(),
        ensures
            final(self).wf(),
            (r matches Err(Error::CommunicationFailure)) <==> failure_count(final(self).calls()) > failure_count(
                old(self).calls(),
            ),
            failure_count(final(self).calls()) >= failure_count(old(self).calls()),
            old(self).accesses().is_prefix_of(final(self).accesses()),
            read_decoded(
                since(old(self).accesses(), final(self).accesses()),
                RegModemConfig1ImplicitHeaderModeOn.field(),
                r,
                |v: u8| HeaderMode::spec_from_u8(v),
            ),
    {
        let raw = self.spi.read(RegModemConfig1ImplicitHeaderModeOn)?;
        let r = HeaderMode::from_u8(raw);
        assert(since(old(self).accesses(), self.accesses()) =~= seq![Access::Read(RegModemConfig1ImplicitHeaderModeOn.field(), raw)]);
        r
    }

    /// Sets the header mode
    pub fn set_header_mode(&mut self, header_mode: HeaderMode) -> (r: Result<(), Error>)
        requires
            old(self).wf(),
        ensures
            final(self).wf(),
            (r matches Err(Error::CommunicationFailure)) <==> failure_count(final(self).calls()) > failure_count(
                old(self).calls(),
            ),
            failure_count(final(self).calls()) >= failure_count(old(self).calls()),
            old(self).accesses().is_prefix_of(final(self).accesses()),
            wrote(since(old(self).accesses(), final(self).accesses()), RegModemConfig1ImplicitHeaderModeOn.field(), header_mode.spec_as_u8(), r),
    {
        let value = header_mode.as_u8();
        let r = self.spi.write(RegModemConfig1ImplicitHeaderModeOn, value);
        proof {
            if r is Ok {
                assert(since(old(self).accesses(), self.accesses()) =~= seq![Access::Write(RegModemConfig1ImplicitHeaderModeOn.field(), value)]);
            } else {
                assert(since(old(self).accesses(), self.accesses()) =~= Seq::<Access>::empty());
            }
        }
        r
    }

    /// The current CRC mode
    pub fn crc_mode(&mut self) -> (r: Result<CrcMode, Error>)
        requires
            old(self).wf(),
        ensures
            final(self).wf(),
            (r matches Err(Error::CommunicationFailure)) <==> failure_count(final(self).calls()) > failure_count(
                old(self).calls(),
            ),
            failure_count(final(self).calls()) >= failure_count(old(self).calls()),
            old(self).accesses().is_prefix_of(final(self).accesses()),
            read_decoded(
                since(old(self).accesses(), final(self).accesses()),
                RegModemConfig2RxPayloadCrcOn.field(),
                r,
                |v: u8| CrcMode::spec_from_u8(v),
            ),
    {
        let raw = self.spi.read(RegModemConfig2RxPayloadCrcOn)?;
        let r = CrcMode::from_u8(raw);
        assert(since(old(self).accesses(), self.accesses()) =~= seq![Access::Read(RegModemConfig2RxPayloadCrcOn.field(), raw)]);
        r
    }

    /// Sets the CRC mode
    pub fn set_crc_mode(&mut self, crc: CrcMode) -> (r: Result<(), Error>)
        requires
            old(self).wf(),
        ensures
            final(self).wf(),
            (r matches Err(Error::CommunicationFailure)) <==> failure_count(final(self).calls()) > failure_count(
                old(self).calls(),
            ),
            failure_count(final(self).calls()) >= failure_count(old(self).calls()),
            old(self).accesses().is_prefix_of(final(self).accesses()),
            wrote(since(old(self).accesses(), final(self).accesses()), RegModemConfig2RxPayloadCrcOn.field(), crc.spec_as_u8(), r),
    {
        let value = crc.as_u8();
        let r = self.spi.write(RegModemConfig2RxPayloadCrcOn, value);
        proof {
            if r is Ok {
                assert(since(old(self).accesses(), self.accesses()) =~= seq![Access::Write(RegModemConfig2RxPayloadCrcOn.field(), value)]);
            } else {
                assert(since(old(self).accesses(), self.accesses()) =~= Seq::<Access>::empty());
            }
        }
        r
    }

    /// Sets the sync word
    pub fn set_sync_word(&mut self, sync_word: SyncWord) -> (r: Result<(), Error>)
        requires
            old(self).wf(),
        ensures
            final(self).wf(),
            (r matches Err(Error::CommunicationFailure)) <==> failure_count(final(self).calls()) > failure_count(
                old(self).calls(),
            ),
            failure_count(final(self).calls()) >= failure_count(old(self).calls()),
            old(self).accesses().is_prefix_of(final(self).accesses()),
            wrote(since(old(self).accesses(), final(self).accesses()), RegSyncWord.field(), sync_word.spec_as_u8(), r),
    {
        let value = sync_word.as_u8();
        let r = self.spi.write(RegSyncWord, value);
        proof {
            if r is Ok {
                assert(since(old(self).accesses(), self.accesses()) =~= seq![Access::Write(RegSyncWord.field(), value)]);
            } else {
                assert(since(old(self).accesses(), self.accesses()) =~= Seq::<Access>::empty());
            }
        }
        r
    }

    /// The current sync word
    pub fn sync_word(&mut self) -> (r: Result<SyncWord, Error>)
        requires
            old(self).wf(),
        ensures
            final(self).wf(),
            (r matches Err(Error::CommunicationFailure)) <==> failure_count(final(self).calls()) > failure_count(
                old(self).calls(),
            ),
            failure_count(final(self).calls()) >= failure_count(old(self).calls()),
            old(self).accesses().is_prefix_of(final(self).accesses()),
            match r {
                Ok(word) => since(old(self).accesses(), final(self).accesses()) == seq![
                    Access::Read(RegSyncWord.field(), word.spec_as_u8()),
                ],
                Err(e) => e == Error::CommunicationFailure && final(self).accesses() == old(self).accesses(),
            },
    {
        let raw = self.spi.read(RegSyncWord)?;
        assert(since(old(self).accesses(), self.accesses()) =~= seq![Access::Read(RegSyncWord.field(), raw)]);
        Ok(SyncWord::new(raw))
    }

    /// Set the spreading factor, together with the low-datarate-optimization flag for it and the current
    /// bandwidth
    pub fn set_spreading_factor(&mut self, spreading_factor: SpreadingFactor) -> (r: Result<(), Error>)
        requires
            old(self).wf(),
        ensures
            final(self).wf(),
            (r matches Err(Error::CommunicationFailure)) <==> failure_count(final(self).calls()) > failure_count(
                old(self).calls(),
            ),
            failure_count(final(self).calls()) >= failure_count(old(self).calls()),
            old(self).accesses().is_prefix_of(final(self).accesses()),
            match r {
                Ok(()) => spreading_factor_update(since(old(self).accesses(), final(self).accesses()), spreading_factor),
                Err(Error::InvalidParameterValue) => undecodable_read(
                    since(old(self).accesses(), final(self).accesses()),
                    RegModemConfig1Bw.field(),
                    |v: u8| Bandwidth::spec_from_u8(v),
                ),
                Err(Error::CommunicationFailure) => failed_after_decodable(
                    since(old(self).accesses(), final(self).accesses()),
                    RegModemConfig1Bw.field(),
                    |v: u8| Bandwidth::spec_from_u8(v),
                    3,
                ),
                Err(_) => false,
            },
    {
        let ghost start = self.accesses();
        let bandwidth = self.bandwidth()?;
        let ghost after_read = self.accesses();
        let needs_ldo = airtime::needs_ldo(spreading_factor, bandwidth);
        let ldo: u8 = if needs_ldo { 1 } else { 0 };
        let r1 = self.spi.write(RegModemConfig2SpreadingFactor, spreading_factor.as_u8());
        assert(since(start, self.accesses()) =~= since(start, after_read) + since(after_read, self.accesses()));
        r1?;
        let ghost after_sf = self.accesses();
        let r2 = self.spi.write(RegModemConfig3LowDataRateOptimize, ldo);
        assert(since(start, self.accesses()) =~= since(start, after_sf) + since(after_sf, self.accesses()));
        r2?;
        Ok(())
    }

    /// Sets the bandwidth, together with the low-datarate-optimization flag for it and the current spreading
    /// factor
    pub fn set_bandwidth(&mut self, bandwidth: Bandwidth) -> (r: Result<(), Error>)
        requires
            old(self).wf(),
        ensures
            final(self).wf(),
            (r matches Err(Error::CommunicationFailure)) <==> failure_count(final(self).calls()) > failure_count(
                old(self).calls(),
            ),
            failure_count(final(self).calls()) >= failure_count(old(self).calls()),
            old(self).accesses().is_prefix_of(final(self).accesses()),
            match r {
                Ok(()) => bandwidth_update(since(old(self).accesses(), final(self).accesses()), bandwidth),
                Err(Error::InvalidParameterValue) => undecodable_read(
                    since(old(self).accesses(), final(self).accesses()),
                    RegModemConfig2SpreadingFactor.field(),
                    |v: u8| SpreadingFactor::spec_from_u8(v),
                ),
                Err(Error::CommunicationFailure) => failed_after_decodable(
                    since(old(self).accesses(), final(self).accesses()),
                    RegModemConfig2SpreadingFactor.field(),
                    |v: u8| SpreadingFactor::spec_from_u8(v),
                    3,
                ),
                Err(_) => false,
            },
    {
        let ghost start = self.accesses();
        let spreading_factor = self.spreading_factor()?;
        let ghost after_read = self.accesses();
        let needs_ldo = airtime::needs_ldo(spreading_factor, bandwidth);
        let ldo: u8 = if needs_ldo { 1 } else { 0 };
        let r1 = self.spi.write(RegModemConfig1Bw, bandwidth.as_u8());
        assert(since(start, self.accesses()) =~= since(start, after_read) + since(after_read, self.accesses()));
        r1?;
        let ghost after_bw = self.accesses();
        let r2 = self.spi.write(RegModemConfig3LowDataRateOptimize, ldo);
        assert(since(start, self.accesses()) =~= since(start, after_bw) + since(after_bw, self.accesses()));
        r2?;
        Ok(())
    }

    /// The current preamble length
    pub fn preamble_len(&mut self) -> (r: Result<PreambleLength, Error>)
        requires
            old(self).wf(),
        ensures
            final(self).wf(),
            (r matches Err(Error::CommunicationFailure)) <==> failure_count(final(self).calls()) > failure_count(
                old(self).calls(),
            ),
            failure_count(final(self).calls()) >= failure_count(old(self).calls()),
            old(self).accesses().is_prefix_of(final(self).accesses()),
            match r {
                Ok(len) => {
                    let e = since(old(self).accesses(), final(self).accesses());
                    &&& e.len() == 2
                    &&& e[0] == Access::Read(RegPreambleMsb.field(), e[0]->Read_1)
                    &&& e[1] == Access::Read(RegPreambleLsb.field(), e[1]->Read_1)
                    &&& len.spec_as_u16() == e[0]->Read_1 * 256 + e[1]->Read_1
                },
                Err(e) => e == Error::CommunicationFailure,
            },
    {
        let ghost start = self.accesses();
        let msb = self.spi.read(RegPreambleMsb)?;
        let lsb = self.spi.read(RegPreambleLsb)?;
        assert(since(start, self.accesses()) =~= seq![
            Access::Read(RegPreambleMsb.field(), msb),
            Access::Read(RegPreambleLsb.field(), lsb),
        ]);
        Ok(PreambleLength::new(msb as u16 * 256 + lsb as u16))
    }

    /// Sets the preamble length
    pub fn set_preamble_len(&mut self, len: PreambleLength) -> (r: Result<(), Error>)
        requires
            old(self).wf(),
        ensures
            final(self).wf(),
            (r matches Err(Error::CommunicationFailure)) <==> failure_count(final(self).calls()) > failure_count(
                old(self).calls(),
            ),
            failure_count(final(self).calls()) >= failure_count(old(self).calls()),
            old(self).accesses().is_prefix_of(final(self).accesses()),
            match r {
                Ok(()) => since(old(self).accesses(), final(self).accesses()) == preamble_writes(len),
                Err(e) => e == Error::CommunicationFailure,
            },
    {
        let ghost start = self.accesses();
        let raw = len.as_u16();
        self.spi.write(RegPreambleMsb, (raw / 256) as u8)?;
        self.spi.write(RegPreambleLsb, (raw % 256) as u8)?;
        assert(since(start, self.accesses()) =~= preamble_writes(len));
        Ok(())
    }

    /// The current frequency
    ///
    /// The register holds a count of 61.035 Hz synthesizer ticks; the frequency is rounded down to whole Hz.
    pub fn frequency(&mut self) -> (r: Result<Frequency, Error>)
        requires
            old(self).wf(),
        ensures
            final(self).wf(),
            (r matches Err(Error::CommunicationFailure)) <==> failure_count(final(self).calls()) > failure_count(
                old(self).calls(),
            ),
            failure_count(final(self).calls()) >= failure_count(old(self).calls()),
            old(self).accesses().is_prefix_of(final(self).accesses()),
            match r {
                Ok(frequency) => {
                    let e = since(old(self).accesses(), final(self).accesses());
                    &&& e.len() == 3
                    &&& e[0] == Access::Read(RegFrMsb.field(), e[0]->Read_1)
                    &&& e[1] == Access::Read(RegFrMid.field(), e[1]->Read_1)
                    &&& e[2] == Access::Read(RegFrLsb.field(), e[2]->Read_1)
                    &&& frequency.spec_as_u32() == spec_frequency_hz(
                        spec_ticks_of(e[0]->Read_1, e[1]->Read_1, e[2]->Read_1),
                    )
                },
                Err(e) => e == Error::CommunicationFailure,
            },
    {
        let ghost start = self.accesses();
        let msb = self.spi.read(RegFrMsb)?;
        let mid = self.spi.read(RegFrMid)?;
        let lsb = self.spi.read(RegFrLsb)?;
        assert(since(start, self.accesses()) =~= seq![
            Access::Read(RegFrMsb.field(), msb),
            Access::Read(RegFrMid.field(), mid),
            Access::Read(RegFrLsb.field(), lsb),
        ]);
        let ticks = msb as u64 * 65536 + mid as u64 * 256 + lsb as u64;
        assert(ticks * FREQUENCY_DIVIDER_MILLIHZ <= 16_777_215 * 61_035) by (nonlinear_arith)
            requires
                ticks <= 16_777_215,
        ;
        let hz = ticks * FREQUENCY_DIVIDER_MILLIHZ / 1000;
        Ok(Frequency::hz(hz as u32))
    }

    /// Sets the frequency, and selects low-frequency mode below 652 MHz
    pub fn set_frequency(&mut self, frequency: Frequency) -> (r: Result<(), Error>)
        requires
            old(self).wf(),
        ensures
            final(self).wf(),
            (r matches Err(Error::CommunicationFailure)) <==> failure_count(final(self).calls()) > failure_count(
                old(self).calls(),
            ),
            failure_count(final(self).calls()) >= failure_count(old(self).calls()),
            old(self).accesses().is_prefix_of(final(self).accesses()),
            match r {
                Ok(()) => since(old(self).accesses(), final(self).accesses()) == frequency_writes(frequency),
                Err(e) => e == Error::CommunicationFailure,
            },
    {
        let ghost start = self.accesses();
        let hz = frequency.as_u32();
        let frequency_mode: u8 = if hz < HIGH_FREQUENCY_THRESHOLD_HZ { 1 } else { 0 };
        self.spi.write(RegOpModeLowFrequencyModeOn, frequency_mode)?;

        // Go via milli-hertz to keep the precision without floats
        let ticks = hz as u64 * 1000 / FREQUENCY_DIVIDER_MILLIHZ;
        self.spi.write(RegFrMsb, ((ticks / 65536) % 256) as u8)?;
        self.spi.write(RegFrMid, ((ticks / 256) % 256) as u8)?;
        self.spi.write(RegFrLsb, (ticks % 256) as u8)?;
        assert(since(start, self.accesses()) =~= frequency_writes(frequency));
        Ok(())
    }

    /// Applies the given config, one field after the other
    #[verifier::rlimit(80)]
    pub fn set_config(&mut self, config: &Config) -> (r: Result<(), Error>)
        requires
            old(self).wf(),
        ensures
            final(self).wf(),
            (r matches Err(Error::CommunicationFailure)) <==> failure_count(final(self).calls()) > failure_count(
                old(self).calls(),
            ),
            failure_count(final(self).calls()) >= failure_count(old(self).calls()),
            old(self).accesses().is_prefix_of(final(self).accesses()),
            r is Ok ==> config_update(since(old(self).accesses(), final(self).accesses()), *config),
            r matches Err(e) ==> e == Error::CommunicationFailure || e == Error::InvalidParameterValue,
    {
        let ghost a0 = self.accesses();
        self.set_spreading_factor(config.spreading_factor())?;
        let ghost a1 = self.accesses();
        self.set_bandwidth(config.bandwidth())?;
        let ghost a2 = self.accesses();
        self.set_coding_rate(config.coding_rate())?;
        let ghost b1 = self.accesses();
        self.set_polarity(config.polarity())?;
        let ghost b2 = self.accesses();
        self.set_header_mode(config.header_mode())?;
        let ghost b3 = self.accesses();
        self.set_crc_mode(config.crc_mode())?;
        let ghost b4 = self.accesses();
        self.set_sync_word(config.sync_word())?;
        let ghost a3 = self.accesses();
        self.set_preamble_len(config.preamble_len())?;
        let ghost a4 = self.accesses();
        self.set_frequency(config.frequency())?;
        proof {
            lemma_since_split(a2, b1, b2);
            lemma_since_split(a2, b2, b3);
            lemma_since_split(a2, b3, b4);
            lemma_since_split(a2, b4, a3);
            assert(since(a2, a3) =~= seq![
                Access::Write(RegModemConfig1CodingRate.field(), config.spec_coding_rate().spec_as_u8()),
                Access::Write(RegInvertIQ.field(), config.spec_polarity().spec_as_u8()),
                Access::Write(RegModemConfig1ImplicitHeaderModeOn.field(), config.spec_header_mode().spec_as_u8()),
                Access::Write(RegModemConfig2RxPayloadCrcOn.field(), config.spec_crc_mode().spec_as_u8()),
                Access::Write(RegSyncWord.field(), config.spec_sync_word().spec_as_u8()),
            ]);
            lemma_since_split(a3, a4, self.accesses());
            lemma_since_split(a2, a3, self.accesses());
            lemma_since_split(a1, a2, self.accesses());
            lemma_since_split(a0, a1, self.accesses());
            lemma_config_update(
                since(a0, self.accesses()),
                since(a0, a1),
                since(a1, a2),
                since(a2, a3),
                since(a3, a4),
                since(a4, self.accesses()),
                *config,
            );
        }
        Ok(())
    }

    /// Schedules a single TX operation with the given data and returns immediately
    ///
    /// Use [`Self::complete_tx`] to learn when the transmission is done.
    #[verifier::rlimit(80)]
    pub fn start_tx(&mut self, data: &[u8]) -> (r: Result<(), Error>)
        requires
            old(self).wf(),
        ensures
            final(self).wf(),
            (r matches Err(Error::CommunicationFailure)) <==> failure_count(final(self).calls()) > failure_count(
                old(self).calls(),
            ),
            failure_count(final(self).calls()) >= failure_count(old(self).calls()),
            r matches Err(Error::InvalidInputLength) ==> final(self).calls() == old(self).calls(),
            old(self).accesses().is_prefix_of(final(self).accesses()),
            match r {
                Ok(()) => valid_payload_len(data@.len() as int) && since(old(self).accesses(), final(self).accesses())
                    == tx_start_accesses(data@),
                Err(Error::InvalidInputLength) => !valid_payload_len(data@.len() as int) && final(self).accesses()
                    == old(self).accesses(),
                Err(Error::CommunicationFailure) => valid_payload_len(data@.len() as int),
                Err(_) => false,
            },
    {
        // Validate input length
        if data.len() == 0 || data.len() > RFM95_FIFO_SIZE {
            return Err(Error::InvalidInputLength);
        }
        let ghost start = self.accesses();

        // Copy packet into FIFO...
        let mut index: usize = 0;
        assert(data@.take(0) =~= Seq::<u8>::empty());
        assert(since(start, self.accesses()) =~= Seq::<Access>::empty());
        while index < data.len()
            invariant
                valid_payload_len(data@.len() as int),
                index <= data@.len(),
                start == old(self).accesses(),
                start.is_prefix_of(self.accesses()),
                since(start, self.accesses()) == fifo_load(data@.take(index as int)),
                failure_count(self.calls()) == failure_count(old(self).calls()),
                self.wf(),
            decreases data.len() - index,
        {
            let ghost before = self.accesses();
            self.spi.write(RegFifoAddrPtr, index as u8)?;
            self.spi.write(RegFifo, data[index])?;
            proof {
                assert(data@.take(index + 1).drop_last() =~= data@.take(index as int));
                assert(since(start, self.accesses()) =~= since(start, before) + seq![
                    Access::Write(RegFifoAddrPtr.field(), index as u8),
                    Access::Write(RegFifo.field(), data@[index as int]),
                ]);
            }
            index = index + 1;
        }
        assert(data@.take(data@.len() as int) =~= data@);
        let ghost loaded = self.accesses();

        // ... and set packet length
        self.spi.write(RegPayloadLength, data.len() as u8)?;

        // Enable and reset possible old interrupt
        self.spi.write(RegIrqFlagsMaskTxDoneMask, 0)?;
        self.spi.write(RegIrqFlagsTxDone, 1)?;

        // Start TX
        self.spi.write(RegOpModeMode, REG_OPMODE_MODE_TXSINGLE)?;
        assert(since(start, self.accesses()) =~= since(start, loaded) + seq![
            Access::Write(RegPayloadLength.field(), data@.len() as u8),
            Access::Write(RegIrqFlagsMaskTxDoneMask.field(), 0),
            Access::Write(RegIrqFlagsTxDone.field(), 1),
            Access::Write(RegOpModeMode.field(), REG_OPMODE_MODE_TXSINGLE),
        ]);
        Ok(())
    }

    /// Checks if a single TX operation has completed, and returns the amount of bytes sent
    ///
    /// Returns `Ok(None)` while the transmission is still running.
    pub fn complete_tx(&mut self) -> (r: Result<Option<usize>, Error>)
        requires
            old(self).wf(),
        ensures
            final(self).wf(),
            (r matches Err(Error::CommunicationFailure)) <==> failure_count(final(self).calls()) > failure_count(
                old(self).calls(),
            ),
            failure_count(final(self).calls()) >= failure_count(old(self).calls()),
            old(self).accesses().is_prefix_of(final(self).accesses()),
            ({
                let e = since(old(self).accesses(), final(self).accesses());
                match r {
                    Ok(None) => e.len() == 1 && e[0] == Access::Read(RegIrqFlagsTxDone.field(), e[0]->Read_1)
                        && e[0]->Read_1 != 1,
                    Ok(Some(sent)) => {
                        &&& e.len() == 2
                        &&& e[0] == Access::Read(RegIrqFlagsTxDone.field(), 1)
                        &&& e[1] == Access::Read(RegPayloadLength.field(), e[1]->Read_1)
                        &&& sent == e[1]->Read_1
                    },
                    Err(err) => err == Error::CommunicationFailure && (e.len() == 0 || e == seq![
                        Access::Read(RegIrqFlagsTxDone.field(), 1),
                    ]),
                }
            }),
            ({
                let e = since(old(self).accesses(), final(self).accesses());
                (e.len() >= 1 && e[0] == Access::Read(RegIrqFlagsTxDone.field(), e[0]->Read_1) && e[0]->Read_1 != 1)
                    ==> r == Ok::<Option<usize>, Error>(None) && e.len() == 1
            }),
    {
        let ghost start = self.accesses();
        // Check for TX done
        let done = self.spi.read(RegIrqFlagsTxDone)?;
        if done != 1 {
            // The TX operation has not been completed yet
            assert(since(start, self.accesses()) =~= seq![Access::Read(RegIrqFlagsTxDone.field(), done)]);
            return Ok(None);
        }

        // Get and return the amount of bytes sent
        let written = self.spi.read(RegPayloadLength)?;
        assert(since(start, self.accesses()) =~= seq![
            Access::Read(RegIrqFlagsTxDone.field(), 1),
            Access::Read(RegPayloadLength.field(), written),
        ]);
        Ok(Some(written as usize))
    }

    /// Reads the spreading factor and the bandwidth
    fn modulation(&mut self) -> (r: Result<(SpreadingFactor, Bandwidth), Error>)
        requires
            old(self).wf(),
        ensures
            final(self).wf(),
            (r matches Err(Error::CommunicationFailure)) <==> failure_count(final(self).calls()) > failure_count(
                old(self).calls(),
            ),
            failure_count(final(self).calls()) >= failure_count(old(self).calls()),
            old(self).accesses().is_prefix_of(final(self).accesses()),
            ({
                let e = since(old(self).accesses(), final(self).accesses());
                match r {
                    Ok((spreading_factor, bandwidth)) => {
                        &&& modulation_read(e)
                        &&& SpreadingFactor::spec_from_u8(e[0]->Read_1) == Some(spreading_factor)
                        &&& Bandwidth::spec_from_u8(e[1]->Read_1) == Some(bandwidth)
                    },
                    Err(Error::InvalidParameterValue) => modulation_undecodable(e),
                    Err(Error::CommunicationFailure) => failed_after_decodable(
                        e,
                        RegModemConfig2SpreadingFactor.field(),
                        |v: u8| SpreadingFactor::spec_from_u8(v),
                        2,
                    ),
                    Err(_) => false,
                }
            }),
    {
        let ghost start = self.accesses();
        let spreading_factor = self.spreading_factor()?;
        let ghost middle = self.accesses();
        let bandwidth = self.bandwidth();
        proof {
            lemma_since_split(start, middle, self.accesses());
            assert(since(start, self.accesses()).skip(1) =~= since(middle, self.accesses()));
        }
        let bandwidth = bandwidth?;
        Ok((spreading_factor, bandwidth))
    }

    /// Computes the maximum RX timeout for the currently configured spreading factor and bandwidth
    ///
    /// The modem counts the timeout in symbols, up to 1023 of them, so the maximum is 1023 symbol airtimes. It
    /// depends on the spreading factor and the bandwidth and must be recomputed when either changes.
    pub fn rx_timeout_max(&mut self) -> (r: Result<Duration, Error>)
        requires
            old(self).wf(),
        ensures
            final(self).wf(),
            (r matches Err(Error::CommunicationFailure)) <==> failure_count(final(self).calls()) > failure_count(
                old(self).calls(),
            ),
            failure_count(final(self).calls()) >= failure_count(old(self).calls()),
            old(self).accesses().is_prefix_of(final(self).accesses()),
            ({
                let e = since(old(self).accesses(), final(self).accesses());
                match r {
                    Ok(timeout) => modulation_read(e) && timeout.spec_micros() == RX_TIMEOUT_MAX_SYMBOLS
                        * read_symbol_micros(e),
                    Err(Error::InvalidParameterValue) => modulation_undecodable(e),
                    Err(Error::CommunicationFailure) => failed_after_decodable(
                        e,
                        RegModemConfig2SpreadingFactor.field(),
                        |v: u8| SpreadingFactor::spec_from_u8(v),
                        2,
                    ),
                    Err(_) => false,
                }
            }),
    {
        let (spreading_factor, bandwidth) = self.modulation()?;
        let airtime_symbol = airtime::symbol_airtime(spreading_factor, bandwidth).as_micros();
        proof {
            airtime::lemma_symbol_micros_range(spreading_factor, bandwidth);
        }
        Ok(Duration::from_micros(airtime_symbol * RX_TIMEOUT_MAX_SYMBOLS as u64))
    }

    /// Schedules a single RX operation and returns immediately
    ///
    /// The timeout is rounded up to whole symbols of the current modulation and must come to fewer than 1024
    /// of them (see [`Self::rx_timeout_max`]). Use [`Self::complete_rx`] to learn when a packet arrived.
    #[verifier::rlimit(80)]
    pub fn start_rx(&mut self, timeout: Duration) -> (r: Result<(), Error>)
        requires
            old(self).wf(),
        ensures
            final(self).wf(),
            (r matches Err(Error::CommunicationFailure)) <==> failure_count(final(self).calls()) > failure_count(
                old(self).calls(),
            ),
            failure_count(final(self).calls()) >= failure_count(old(self).calls()),
            old(self).accesses().is_prefix_of(final(self).accesses()),
            ({
                let e = since(old(self).accesses(), final(self).accesses());
                let symbols = timeout_symbols(timeout.spec_micros(), read_symbol_micros(e));
                match r {
                    Ok(()) => {
                        &&& modulation_read(e.take(2))
                        &&& symbols < 1024
                        &&& e == e.take(2) + rx_start_writes(symbols)
                    },
                    Err(Error::TimeoutTooLarge) => modulation_read(e) && symbols >= 1024,
                    Err(Error::InvalidParameterValue) => modulation_undecodable(e),
                    Err(Error::CommunicationFailure) => {
                        ||| failed_after_decodable(
                            e,
                            RegModemConfig2SpreadingFactor.field(),
                            |v: u8| SpreadingFactor::spec_from_u8(v),
                            2,
                        )
                        ||| (e.len() >= 2 && modulation_read(e.take(2)) && symbols < 1024)
                    },
                    Err(_) => false,
                }
            }),
            ({
                let e = since(old(self).accesses(), final(self).accesses());
                (e.len() >= 2 && modulation_read(e.take(2)) && timeout_symbols(timeout.spec_micros(), read_symbol_micros(e))
                    >= 1024) ==> r == Err::<(), Error>(Error::TimeoutTooLarge) && e.len() == 2
            }),
    {
        let ghost start = self.accesses();
        let (spreading_factor, bandwidth) = self.modulation()?;
        let ghost configured = self.accesses();
        let timeout_symbols = match rx_timeout_symbols(timeout, spreading_factor, bandwidth) {
            Ok(symbols) => symbols,
            Err(e) => return Err(e),
        };

        // Configure the timeout and reset the address pointer
        self.spi.write(RegModemConfig2SymbTimeout98, (timeout_symbols / 256) as u8)?;
        self.spi.write(RegSymbTimeoutLsb, (timeout_symbols % 256) as u8)?;
        self.spi.write(RegFifoAddrPtr, 0x00)?;

        // Enable interrupts
        self.spi.write(RegIrqFlagsMaskRxDoneMask, 0)?;
        self.spi.write(RegIrqFlagsMaskRxTimeoutMask, 0)?;
        self.spi.write(RegIrqFlagsMaskPayloadCrcErrorMask, 0)?;

        // Reset possible old interrupts
        self.spi.write(RegIrqFlagsRxDone, 1)?;
        self.spi.write(RegIrqFlagsRxTimeout, 1)?;
        self.spi.write(RegIrqFlagsPayloadCrcError, 1)?;

        // Start RX
        self.spi.write(RegOpModeMode, REG_OPMODE_MODE_RXSINGLE)?;
        proof {
            lemma_since_split(start, configured, self.accesses());
            assert(since(configured, self.accesses()) =~= rx_start_writes(timeout_symbols as int));
            assert(since(start, self.accesses()).take(2) =~= since(start, configured));
        }
        Ok(())
    }

    /// Checks if a single RX operation has completed, copies the message into `buf` and returns the number of
    /// bytes copied
    ///
    /// The timeout flag is checked first, then the CRC error flag, then the RX-done flag; `Ok(None)` means the
    /// reception is still running. A packet longer than `buf` is cut to fit.
    #[verifier::rlimit(80)]
    pub fn complete_rx(&mut self, buf: &mut [u8]) -> (r: Result<Option<usize>, Error>)
        requires
            old(self).wf(),
        ensures
            final(self).wf(),
            (r matches Err(Error::CommunicationFailure)) <==> failure_count(final(self).calls()) > failure_count(
                old(self).calls(),
            ),
            failure_count(final(self).calls()) >= failure_count(old(self).calls()),
            old(self).accesses().is_prefix_of(final(self).accesses()),
            final(buf)@.len() == old(buf)@.len(),
            ({
                let e = since(old(self).accesses(), final(self).accesses());
                &&& match r {
                    Err(Error::RxTimeout) => e.len() == 1 && e[0] == Access::Read(
                        RegIrqFlagsRxTimeout.field(),
                        e[0]->Read_1,
                    ) && e[0]->Read_1 != 0 && final(buf)@ == old(buf)@,
                    Err(Error::RxCrcError) => {
                        &&& final(buf)@ == old(buf)@
                        &&& e.len() == 2
                        &&& e[0] == Access::Read(RegIrqFlagsRxTimeout.field(), 0)
                        &&& e[1] == Access::Read(RegIrqFlagsPayloadCrcError.field(), e[1]->Read_1)
                        &&& e[1]->Read_1 != 0
                    },
                    Ok(None) => {
                        &&& e.len() == 3
                        &&& e.take(2) == rx_done_flags().take(2)
                        &&& e[2] == Access::Read(RegIrqFlagsRxDone.field(), e[2]->Read_1)
                        &&& e[2]->Read_1 != 1
                        &&& final(buf)@ == old(buf)@
                    },
                    Ok(Some(copied)) => {
                        let packet_start = e[3]->Read_1;
                        let packet_len = e[4]->Read_1;
                        &&& e.len() >= 5
                        &&& e.take(3) == rx_done_flags()
                        &&& e[3] == Access::Read(RegFifoRxCurrentAddr.field(), packet_start)
                        &&& e[4] == Access::Read(RegRxNbBytes.field(), packet_len)
                        &&& copied == if packet_len <= old(buf)@.len() { packet_len as int } else { old(buf)@.len() as int }
                        &&& e.skip(5) == fifo_unload(packet_start, final(buf)@.take(copied as int))
                        &&& final(buf)@.skip(copied as int) == old(buf)@.skip(copied as int)
                    },
                    Err(Error::CommunicationFailure) => {
                        &&& e.len() > 0 ==> e[0] == Access::Read(RegIrqFlagsRxTimeout.field(), 0)
                        &&& e.len() > 1 ==> e[1] == Access::Read(RegIrqFlagsPayloadCrcError.field(), 0)
                        &&& e.len() > 2 ==> e[2] == Access::Read(RegIrqFlagsRxDone.field(), 1)
                    },
                    Err(_) => false,
                }
                &&& (e.len() > 0 && e[0] == Access::Read(RegIrqFlagsRxTimeout.field(), e[0]->Read_1) && e[0]->Read_1
                    != 0) ==> r == Err::<Option<usize>, Error>(Error::RxTimeout)
                &&& (e.len() > 1 && e.take(1) == rx_done_flags().take(1) && e[1] == Access::Read(
                    RegIrqFlagsPayloadCrcError.field(),
                    e[1]->Read_1,
                ) && e[1]->Read_1 != 0) ==> r == Err::<Option<usize>, Error>(Error::RxCrcError)
                &&& (e.len() > 2 && e.take(2) == rx_done_flags().take(2) && e[2] == Access::Read(
                    RegIrqFlagsRxDone.field(),
                    e[2]->Read_1,
                ) && e[2]->Read_1 != 1) ==> r == Ok::<Option<usize>, Error>(None) && final(buf)@ == old(buf)@
            }),
    {
        let ghost start = self.accesses();
        // Check for errors
        let timed_out = self.spi.read(RegIrqFlagsRxTimeout)?;
        if timed_out != 0 {
            // The RX operation has timed out
            assert(since(start, self.accesses()) =~= seq![Access::Read(RegIrqFlagsRxTimeout.field(), timed_out)]);
            return Err(Error::RxTimeout);
        }
        let ghost after_timeout = self.accesses();
        assert(since(start, after_timeout) =~= seq![Access::Read(RegIrqFlagsRxTimeout.field(), 0)]);
        let crc_error = self.spi.read(RegIrqFlagsPayloadCrcError)?;
        assert(since(start, self.accesses()) =~= seq![
            Access::Read(RegIrqFlagsRxTimeout.field(), 0),
            Access::Read(RegIrqFlagsPayloadCrcError.field(), crc_error),
        ]);
        if crc_error != 0 {
            // The RX operation has failed
            return Err(Error::RxCrcError);
        }

        // Check for RX done
        let done = self.spi.read(RegIrqFlagsRxDone)?;
        assert(since(start, self.accesses()) =~= rx_done_flags().take(2) + seq![
            Access::Read(RegIrqFlagsRxDone.field(), done),
        ]);
        if done != 1 {
            // The RX operation has not been completed yet
            return Ok(None);
        }

        // Get packet begin and length
        let packet_start = self.spi.read(RegFifoRxCurrentAddr)?;
        let len = self.spi.read(RegRxNbBytes)?;
        let ghost head = self.accesses();
        assert(since(start, head) =~= rx_done_flags() + seq![
            Access::Read(RegFifoRxCurrentAddr.field(), packet_start),
            Access::Read(RegRxNbBytes.field(), len),
        ]);
        let to_copy: usize = if (len as usize) <= buf.len() { len as usize } else { buf.len() };

        // Copy data from FIFO
        let mut index: usize = 0;
        assert(buf@.take(0) =~= Seq::<u8>::empty());
        assert(since(head, self.accesses()) =~= Seq::<Access>::empty());
        while index < to_copy
            invariant
                index <= to_copy,
                to_copy <= buf@.len(),
                to_copy <= len,
                buf@.len() == old(buf)@.len(),
                buf@.skip(index as int) == old(buf)@.skip(index as int),
                start == old(self).accesses(),
                start.is_prefix_of(head),
                since(start, head).len() == 5,
                since(start, head).take(3) == rx_done_flags(),
                since(start, head)[3] == Access::Read(RegFifoRxCurrentAddr.field(), packet_start),
                since(start, head)[4] == Access::Read(RegRxNbBytes.field(), len),
                head.is_prefix_of(self.accesses()),
                since(head, self.accesses()) == fifo_unload(packet_start, buf@.take(index as int)),
                failure_count(self.calls()) == failure_count(old(self).calls()),
                self.wf(),
            decreases to_copy - index,
        {
            let ghost before = self.accesses();
            let ghost buf_before = buf@;
            let offset = ((packet_start as u16 + index as u16) % 256) as u8;

            // Set source address and read byte
            let written = self.spi.write(RegFifoAddrPtr, offset);
            if written.is_err() {
                proof {
                    lemma_since_split(start, head, self.accesses());
                }
                return Err(Error::CommunicationFailure);
            }
            let byte = self.spi.read(RegFifo);
            match byte {
                Ok(byte) => {
                    buf[index] = byte;
                    proof {
                        assert(buf@.take(index + 1).drop_last() =~= buf_before.take(index as int));
                        assert(buf@.take(index + 1).last() == byte);
                        assert(since(head, self.accesses()) =~= since(head, before) + seq![
                            Access::Write(RegFifoAddrPtr.field(), offset),
                            Access::Read(RegFifo.field(), byte),
                        ]);
                        assert(buf@.skip(index + 1) =~= buf_before.skip(index + 1));
                        assert(buf_before.skip(index + 1) =~= buf_before.skip(index as int).skip(1));
                        assert(old(buf)@.skip(index + 1) =~= old(buf)@.skip(index as int).skip(1));
                    }
                },
                Err(_) => {
                    proof {
                        lemma_since_split(start, head, self.accesses());
                    }
                    return Err(Error::CommunicationFailure);
                },
            }
            index = index + 1;
        }
        proof {
            lemma_since_split(start, head, self.accesses());
            assert(since(start, self.accesses()).skip(5) =~= since(head, self.accesses()));
            assert(since(start, self.accesses()).take(3) =~= since(start, head).take(3));
        }
        Ok(Some(to_copy))
    }

    /// The band offset for the RSSI values, from the current frequency
    fn rssi_band_offset(&mut self, inclusive: bool) -> (r: Result<i16, Error>)
        requires
            old(self).wf(),
        ensures
            final(self).wf(),
            (r matches Err(Error::CommunicationFailure)) <==> failure_count(final(self).calls()) > failure_count(
                old(self).calls(),
            ),
            failure_count(final(self).calls()) >= failure_count(old(self).calls()),
            old(self).accesses().is_prefix_of(final(self).accesses()),
            match r {
                Ok(offset) => {
                    let e = since(old(self).accesses(), final(self).accesses());
                    &&& e.len() == 3
                    &&& frequency_read(e)
                    &&& offset == rssi_offset(read_frequency_hz(e), inclusive)
                },
                Err(e) => e == Error::CommunicationFailure,
            },
    {
        let hz = self.frequency()?.as_u32();
        let high = if inclusive { hz >= HF_LF_BOUNDARY_HZ } else { hz > HF_LF_BOUNDARY_HZ };
        if high {
            Ok(HF_RSSI_OFFSET)
        } else {
            Ok(LF_RSSI_OFFSET)
        }
    }

    /// Get the signal strength of the last received packet
    ///
    /// Unlike RSSI, this accounts for LoRa's ability to receive packets below the noise floor.
    pub fn get_packet_strength(&mut self) -> (r: Result<i16, Error>)
        requires
            old(self).wf(),
        ensures
            final(self).wf(),
            (r matches Err(Error::CommunicationFailure)) <==> failure_count(final(self).calls()) > failure_count(
                old(self).calls(),
            ),
            failure_count(final(self).calls()) >= failure_count(old(self).calls()),
            old(self).accesses().is_prefix_of(final(self).accesses()),
            match r {
                Ok(strength) => {
                    let e = since(old(self).accesses(), final(self).accesses());
                    let offset = rssi_offset(read_frequency_hz(e), true);
                    let snr = spec_snr(e[3]->Read_1);
                    &&& e.len() == 5
                    &&& snr_read(e)
                    &&& if snr >= 0 {
                        e[4] == Access::Read(RegRssiValue.field(), e[4]->Read_1) && strength == e[4]->Read_1 + offset
                    } else {
                        e[4] == Access::Read(RegPktRssiValue.field(), e[4]->Read_1) && strength == e[4]->Read_1 + snr
                            + offset
                    }
                },
                Err(e) => e == Error::CommunicationFailure,
            },
    {
        let ghost start = self.accesses();
        let offset = self.rssi_band_offset(true)?;
        let ghost banded = self.accesses();
        let snr = self.get_packet_snr()?;
        let ghost measured = self.accesses();
        if snr >= 0 {
            let rssi = self.spi.read(RegRssiValue)?;
            proof {
                lemma_since_split(start, banded, measured);
                lemma_since_split(start, measured, self.accesses());
                assert(since(start, self.accesses()) =~= since(start, banded) + since(banded, measured) + seq![
                    Access::Read(RegRssiValue.field(), rssi),
                ]);
            }
            Ok(rssi as i16 + offset)
        } else {
            let rssi = self.spi.read(RegPktRssiValue)?;
            proof {
                lemma_since_split(start, banded, measured);
                lemma_since_split(start, measured, self.accesses());
                assert(since(start, self.accesses()) =~= since(start, banded) + since(banded, measured) + seq![
                    Access::Read(RegPktRssiValue.field(), rssi),
                ]);
            }
            Ok(rssi as i16 + snr as i16 + offset)
        }
    }

    /// Get a Relative Signal Strength Indicator (RSSI) of the last received packet
    pub fn get_rssi(&mut self) -> (r: Result<i16, Error>)
        requires
            old(self).wf(),
        ensures
            final(self).wf(),
            (r matches Err(Error::CommunicationFailure)) <==> failure_count(final(self).calls()) > failure_count(
                old(self).calls(),
            ),
            failure_count(final(self).calls()) >= failure_count(old(self).calls()),
            old(self).accesses().is_prefix_of(final(self).accesses()),
            match r {
                Ok(rssi) => {
                    let e = since(old(self).accesses(), final(self).accesses());
                    let offset = rssi_offset(read_frequency_hz(e), false);
                    &&& e.len() == 5
                    &&& snr_read(e)
                    &&& if spec_snr(e[3]->Read_1) >= 0 {
                        e[4] == Access::Read(RegPktRssiValue.field(), e[4]->Read_1) && rssi == e[4]->Read_1 * 16 / 15
                            + offset
                    } else {
                        e[4] == Access::Read(RegRssiValue.field(), e[4]->Read_1) && rssi == e[4]->Read_1 + offset
                    }
                },
                Err(e) => e == Error::CommunicationFailure,
            },
    {
        let ghost start = self.accesses();
        let offset = self.rssi_band_offset(false)?;
        let ghost banded = self.accesses();
        let snr = self.get_packet_snr()?;
        let ghost measured = self.accesses();
        if snr >= 0 {
            let rssi = self.spi.read(RegPktRssiValue)?;
            proof {
                lemma_since_split(start, banded, measured);
                lemma_since_split(start, measured, self.accesses());
                assert(since(start, self.accesses()) =~= since(start, banded) + since(banded, measured) + seq![
                    Access::Read(RegPktRssiValue.field(), rssi),
                ]);
            }
            Ok(rssi as i16 * 16 / 15 + offset)
        } else {
            let rssi = self.spi.read(RegRssiValue)?;
            proof {
                lemma_since_split(start, banded, measured);
                lemma_since_split(start, measured, self.accesses());
                assert(since(start, self.accesses()) =~= since(start, banded) + since(banded, measured) + seq![
                    Access::Read(RegRssiValue.field(), rssi),
                ]);
            }
            Ok(rssi as i16 + offset)
        }
    }

    /// Get the Signal to Noise Ratio (SNR) of the last received packet, in dB
    pub fn get_packet_snr(&mut self) -> (r: Result<i8, Error>)
        requires
            old(self).wf(),
        ensures
            final(self).wf(),
            (r matches Err(Error::CommunicationFailure)) <==> failure_count(final(self).calls()) > failure_count(
                old(self).calls(),
            ),
            failure_count(final(self).calls()) >= failure_count(old(self).calls()),
            old(self).accesses().is_prefix_of(final(self).accesses()),
            match r {
                Ok(snr) => {
                    let e = since(old(self).accesses(), final(self).accesses());
                    &&& e.len() == 1
                    &&& e[0] == Access::Read(RegPktSnrValue.field(), e[0]->Read_1)
                    &&& snr == spec_snr(e[0]->Read_1)
                },
                Err(e) => e == Error::CommunicationFailure,
            },
    {
        let raw = self.spi.read(RegPktSnrValue)?;
        assert(since(old(self).accesses(), self.accesses()) =~= seq![Access::Read(RegPktSnrValue.field(), raw)]);
        // The register holds a two's complement value in quarter dB
        let signed: i16 = if raw < 128 { raw as i16 } else { raw as i16 - 256 };
        let snr: i16 = if signed >= 0 { signed / 4 } else { -((-signed) / 4) };
        Ok(snr as i8)
    }

    /// Dumps all used registers, from address 0 up to [`REGISTER_MAX`]; useful for debugging
    pub fn dump_registers(&mut self) -> (r: Result<[u8; 0x65], Error>)
        requires
            old(self).wf(),
        ensures
            final(self).wf(),
            (r matches Err(Error::CommunicationFailure)) <==> failure_count(final(self).calls()) > failure_count(
                old(self).calls(),
            ),
            failure_count(final(self).calls()) >= failure_count(old(self).calls()),
            old(self).accesses().is_prefix_of(final(self).accesses()),
            match r {
                Ok(dump) => {
                    let e = since(old(self).accesses(), final(self).accesses());
                    &&& e.len() == 0x65
                    &&& forall|i: int| 0 <= i < 0x65 ==> #[trigger] e[i] == Access::Read(
                        DynamicRegister(i as u8).field(),
                        dump@[i],
                    )
                },
                Err(e) => e == Error::CommunicationFailure,
            },
    {
        let ghost start = self.accesses();
        let mut dump = [0u8; 0x65];
        let mut address: usize = 0;
        while address <= REGISTER_MAX as usize
            invariant
                address <= REGISTER_MAX as usize + 1,
                dump@.len() == 0x65,
                start == old(self).accesses(),
                start.is_prefix_of(self.accesses()),
                since(start, self.accesses()).len() == address,
                failure_count(self.calls()) == failure_count(old(self).calls()),
                self.wf(),
                forall|i: int| 0 <= i < address ==> #[trigger] since(start, self.accesses())[i] == Access::Read(
                    DynamicRegister(i as u8).field(),
                    dump@[i],
                ),
            decreases REGISTER_MAX as usize + 1 - address,
        {
            let ghost before = self.accesses();
            let value = self.spi.read(DynamicRegister(address as u8))?;
            dump[address] = value;
            proof {
                assert(since(start, self.accesses()) =~= since(start, before).push(
                    Access::Read(DynamicRegister(address as u8).field(), value),
                ));
            }
            address = address + 1;
        }
        Ok(dump)
    }

    /// Dumps the entire FIFO contents, and puts the FIFO address pointer back where it was
    #[verifier::rlimit(80)]
    pub fn dump_fifo(&mut self) -> (r: Result<[u8; RFM95_FIFO_SIZE], Error>)
        requires
            old(self).wf(),
        ensures
            final(self).wf(),
            (r matches Err(Error::CommunicationFailure)) <==> failure_count(final(self).calls()) > failure_count(
                old(self).calls(),
            ),
            failure_count(final(self).calls()) >= failure_count(old(self).calls()),
            old(self).accesses().is_prefix_of(final(self).accesses()),
            match r {
                Ok(dump) => {
                    let e = since(old(self).accesses(), final(self).accesses());
                    &&& e.len() == 2 * RFM95_FIFO_SIZE + 2
                    &&& e[0] == Access::Read(RegFifoAddrPtr.field(), e[0]->Read_1)
                    &&& e.subrange(1, 2 * RFM95_FIFO_SIZE + 1) == fifo_unload(0, dump@)
                    &&& e[2 * RFM95_FIFO_SIZE + 1] == Access::Write(RegFifoAddrPtr.field(), e[0]->Read_1)
                },
                Err(e) => e == Error::CommunicationFailure,
            },
    {
        let ghost start = self.accesses();
        // Save FIFO position
        let fifo_position = self.spi.read(RegFifoAddrPtr)?;
        let ghost saved = self.accesses();

        let mut dump = [0u8; RFM95_FIFO_SIZE];
        let mut index: usize = 0;
        assert(dump@.take(0) =~= Seq::<u8>::empty());
        assert(since(saved, self.accesses()) =~= Seq::<Access>::empty());
        while index < RFM95_FIFO_SIZE
            invariant
                index <= RFM95_FIFO_SIZE,
                dump@.len() == RFM95_FIFO_SIZE,
                start == old(self).accesses(),
                start.is_prefix_of(saved),
                since(start, saved) == seq![Access::Read(RegFifoAddrPtr.field(), fifo_position)],
                saved.is_prefix_of(self.accesses()),
                since(saved, self.accesses()) == fifo_unload(0, dump@.take(index as int)),
                failure_count(self.calls()) == failure_count(old(self).calls()),
                self.wf(),
            decreases RFM95_FIFO_SIZE - index,
        {
            let ghost before = self.accesses();
            let ghost dump_before = dump@;
            let written = self.spi.write(RegFifoAddrPtr, index as u8);
            if written.is_err() {
                proof {
                    lemma_since_split(start, saved, self.accesses());
                }
                return Err(Error::CommunicationFailure);
            }
            let value = self.spi.read(RegFifo);
            match value {
                Ok(value) => {
                    dump[index] = value;
                    proof {
                        assert(dump@.take(index + 1).drop_last() =~= dump_before.take(index as int));
                        assert(since(saved, self.accesses()) =~= since(saved, before) + seq![
                            Access::Write(RegFifoAddrPtr.field(), index as u8),
                            Access::Read(RegFifo.field(), value),
                        ]);
                    }
                },
                Err(_) => {
                    proof {
                        lemma_since_split(start, saved, self.accesses());
                    }
                    return Err(Error::CommunicationFailure);
                },
            }
            index = index + 1;
        }
        assert(dump@.take(RFM95_FIFO_SIZE as int) =~= dump@);
        let ghost unloaded = self.accesses();

        // Re-apply old FIFO position
        self.spi.write(RegFifoAddrPtr, fifo_position)?;
        proof {
            lemma_since_split(start, saved, unloaded);
            lemma_since_split(start, unloaded, self.accesses());
            lemma_fifo_unload_len(0, dump@);
            let e = since(start, self.accesses());
            assert(since(saved, unloaded).len() == 2 * RFM95_FIFO_SIZE);
            assert(e =~= seq![Access::Read(RegFifoAddrPtr.field(), fifo_position)] + since(saved, unloaded) + seq![
                Access::Write(RegFifoAddrPtr.field(), fifo_position),
            ]);
            assert(e.subrange(1, 2 * RFM95_FIFO_SIZE + 1) =~= since(saved, unloaded));
        }
        Ok(dump)
    }
}

} // verus!
