//! The modem register map
use vstd::prelude::*;

verus! {

/// A register bitfield: the register's address, and the position and width of the field inside it
#[derive(Debug, Clone, Copy, PartialEq, Eq, Structural)]
pub struct RegField {
    /// The 7-bit register address
    pub address: u8,
    /// The position of the field's lowest bit
    pub offset: u8,
    /// The number of bits in the field
    pub width: u8,
}

impl RegField {
    /// The field lies inside one byte of a 7-bit addressable register
    pub open spec fn valid(self) -> bool {
        &&& self.address < 0x80
        &&& 1 <= self.width
        &&& self.offset + self.width <= 8
    }

    /// The bits of the register byte that belong to the field
    pub open spec fn mask(self) -> u8 {
        mask_of(self.offset, self.width)
    }

    /// A value that fits into the field's width
    pub open spec fn fits(self, value: u8) -> bool {
        value >> self.width == 0
    }
}

/// The mask of a field of `width` bits starting at bit `offset`
pub open spec fn mask_of(offset: u8, width: u8) -> u8 {
    ((0xFFu8 >> ((8 - width) as u8)) << offset) as u8
}

/// Computes the mask of a field of `width` bits starting at bit `offset`
pub fn field_mask(offset: u8, width: u8) -> (r: u8)
    requires
        1 <= width,
        offset + width <= 8,
    ensures
        r == mask_of(offset, width),
{
    (u8::MAX >> (8 - width)) << offset
}

/// A RFM95 register
pub trait Register {
    /// The bitfield this register descriptor denotes
    spec fn field(&self) -> RegField;

    /// The register address
    fn address(&self) -> (r: u8)
        ensures
            r == self.field().address,
    ;

    /// The bitfield offset
    fn offset(&self) -> (r: u8)
        ensures
            r == self.field().offset,
    ;

    /// The bitfield mask
    fn mask(&self) -> (r: u8)
        ensures
            r == self.field().mask(),
    ;
}

/// LoRa base-band FIFO data input/output; FIFO is cleared an not accessible when device is in SLEEP mode
#[derive(Debug, Clone, Copy)]
pub struct RegFifo;

impl Register for RegFifo {
    open spec fn field(&self) -> RegField {
        RegField { address: 0x00, offset: 0, width: 8 }
    }

    fn address(&self) -> u8 {
        0x00
    }

    fn offset(&self) -> u8 {
        0
    }

    fn mask(&self) -> u8 {
        field_mask(0, 8)
    }
}

/// 0 -> FSK/OOK Mode, 1 -> LoRa Mode; this bit can be modified only in Sleep mode, a write operation on other device modes is ignored
#[derive(Debug, Clone, Copy)]
pub struct RegOpModeLongRangeMode;

impl Register for RegOpModeLongRangeMode {
    open spec fn field(&self) -> RegField {
        RegField { address: 0x01, offset: 7, width: 1 }
    }

    fn address(&self) -> u8 {
        0x01
    }

    fn offset(&self) -> u8 {
        7
    }

    fn mask(&self) -> u8 {
        field_mask(7, 1)
    }
}

/// This bit operates when device is in Lora mode (see datasheet for more info)
#[derive(Debug, Clone, Copy)]
pub struct RegOpModeAccessSharedReg;

impl Register for RegOpModeAccessSharedReg {
    open spec fn field(&self) -> RegField {
        RegField { address: 0x01, offset: 6, width: 1 }
    }

    fn address(&self) -> u8 {
        0x01
    }

    fn offset(&self) -> u8 {
        6
    }

    fn mask(&self) -> u8 {
        field_mask(6, 1)
    }
}

/// Access Low Frequency Mode registers (see datasheet for more info)
#[derive(Debug, Clone, Copy)]
pub struct RegOpModeLowFrequencyModeOn;

impl Register for RegOpModeLowFrequencyModeOn {
    open spec fn field(&self) -> RegField {
        RegField { address: 0x01, offset: 3, width: 1 }
    }

    fn address(&self) -> u8 {
        0x01
    }

    fn offset(&self) -> u8 {
        3
    }

    fn mask(&self) -> u8 {
        field_mask(3, 1)
    }
}

/// Device modes (see datasheet for more info)
#[derive(Debug, Clone, Copy)]
pub struct RegOpModeMode;

impl Register for RegOpModeMode {
    open spec fn field(&self) -> RegField {
        RegField { address: 0x01, offset: 0, width: 3 }
    }

    fn address(&self) -> u8 {
        0x01
    }

    fn offset(&self) -> u8 {
        0
    }

    fn mask(&self) -> u8 {
        field_mask(0, 3)
    }
}

/// MSB of RF carrier frequency
#[derive(Debug, Clone, Copy)]
pub struct RegFrMsb;

impl Register for RegFrMsb {
    open spec fn field(&self) -> RegField {
        RegField { address: 0x06, offset: 0, width: 8 }
    }

    fn address(&self) -> u8 {
        0x06
    }

    fn offset(&self) -> u8 {
        0
    }

    fn mask(&self) -> u8 {
        field_mask(0, 8)
    }
}

/// Mid of RF carrier frequency
#[derive(Debug, Clone, Copy)]
pub struct RegFrMid;

impl Register for RegFrMid {
    open spec fn field(&self) -> RegField {
        RegField { address: 0x07, offset: 0, width: 8 }
    }

    fn address(&self) -> u8 {
        0x07
    }

    fn offset(&self) -> u8 {
        0
    }

    fn mask(&self) -> u8 {
        field_mask(0, 8)
    }
}

/// LSB of RF carrier frequency
#[derive(Debug, Clone, Copy)]
pub struct RegFrLsb;

impl Register for RegFrLsb {
    open spec fn field(&self) -> RegField {
        RegField { address: 0x08, offset: 0, width: 8 }
    }

    fn address(&self) -> u8 {
        0x08
    }

    fn offset(&self) -> u8 {
        0
    }

    fn mask(&self) -> u8 {
        field_mask(0, 8)
    }
}

/// RegPaConfig (see datasheet for more info)
#[derive(Debug, Clone, Copy)]
pub struct RegPaConfig;

impl Register for RegPaConfig {
    open spec fn field(&self) -> RegField {
        RegField { address: 0x09, offset: 0, width: 8 }
    }

    fn address(&self) -> u8 {
        0x09
    }

    fn offset(&self) -> u8 {
        0
    }

    fn mask(&self) -> u8 {
        field_mask(0, 8)
    }
}

/// SPI interface address pointer in FIFO data buffer
#[derive(Debug, Clone, Copy)]
pub struct RegFifoAddrPtr;

impl Register for RegFifoAddrPtr {
    open spec fn field(&self) -> RegField {
        RegField { address: 0x0D, offset: 0, width: 8 }
    }

    fn address(&self) -> u8 {
        0x0D
    }

    fn offset(&self) -> u8 {
        0
    }

    fn mask(&self) -> u8 {
        field_mask(0, 8)
    }
}

/// Write base address in FIFO data buffer for TX modulator
#[derive(Debug, Clone, Copy)]
pub struct RegFifoTxBaseAddr;

impl Register for RegFifoTxBaseAddr {
    open spec fn field(&self) -> RegField {
        RegField { address: 0x0E, offset: 0, width: 8 }
    }

    fn address(&self) -> u8 {
        0x0E
    }

    fn offset(&self) -> u8 {
        0
    }

    fn mask(&self) -> u8 {
        field_mask(0, 8)
    }
}

/// Read base address in FIFO data buffer for RX demodulator
#[derive(Debug, Clone, Copy)]
pub struct RegFifoRxBaseAddr;

impl Register for RegFifoRxBaseAddr {
    open spec fn field(&self) -> RegField {
        RegField { address: 0x0F, offset: 0, width: 8 }
    }

    fn address(&self) -> u8 {
        0x0F
    }

    fn offset(&self) -> u8 {
        0
    }

    fn mask(&self) -> u8 {
        field_mask(0, 8)
    }
}

/// Start address (in data buffer) of last packet received
#[derive(Debug, Clone, Copy)]
pub struct RegFifoRxCurrentAddr;

impl Register for RegFifoRxCurrentAddr {
    open spec fn field(&self) -> RegField {
        RegField { address: 0x10, offset: 0, width: 8 }
    }

    fn address(&self) -> u8 {
        0x10
    }

    fn offset(&self) -> u8 {
        0
    }

    fn mask(&self) -> u8 {
        field_mask(0, 8)
    }
}

/// Timeout interrupt mask: setting this bit masks the corresponding IRQ in RegIrqFlags
#[derive(Debug, Clone, Copy)]
pub struct RegIrqFlagsMaskRxTimeoutMask;

impl Register for RegIrqFlagsMaskRxTimeoutMask {
    open spec fn field(&self) -> RegField {
        RegField { address: 0x11, offset: 7, width: 1 }
    }

    fn address(&self) -> u8 {
        0x11
    }

    fn offset(&self) -> u8 {
        7
    }

    fn mask(&self) -> u8 {
        field_mask(7, 1)
    }
}

/// Packet reception complete interrupt mask: setting this bit masks the corresponding IRQ in RegIrqFlags
#[derive(Debug, Clone, Copy)]
pub struct RegIrqFlagsMaskRxDoneMask;

impl Register for RegIrqFlagsMaskRxDoneMask {
    open spec fn field(&self) -> RegField {
        RegField { address: 0x11, offset: 6, width: 1 }
    }

    fn address(&self) -> u8 {
        0x11
    }

    fn offset(&self) -> u8 {
        6
    }

    fn mask(&self) -> u8 {
        field_mask(6, 1)
    }
}

/// Payload CRC error interrupt mask: setting this bit masks thecorresponding IRQ in RegIrqFlags
#[derive(Debug, Clone, Copy)]
pub struct RegIrqFlagsMaskPayloadCrcErrorMask;

impl Register for RegIrqFlagsMaskPayloadCrcErrorMask {
    open spec fn field(&self) -> RegField {
        RegField { address: 0x11, offset: 5, width: 1 }
    }

    fn address(&self) -> u8 {
        0x11
    }

    fn offset(&self) -> u8 {
        5
    }

    fn mask(&self) -> u8 {
        field_mask(5, 1)
    }
}

/// FIFO Payload transmission complete interrupt mask: setting this bit masks the corresponding IRQ in RegIrqFlags
#[derive(Debug, Clone, Copy)]
pub struct RegIrqFlagsMaskTxDoneMask;

impl Register for RegIrqFlagsMaskTxDoneMask {
    open spec fn field(&self) -> RegField {
        RegField { address: 0x11, offset: 3, width: 1 }
    }

    fn address(&self) -> u8 {
        0x11
    }

    fn offset(&self) -> u8 {
        3
    }

    fn mask(&self) -> u8 {
        field_mask(3, 1)
    }
}

/// Timeout interrupt: writing a 1 clears the IRQ
#[derive(Debug, Clone, Copy)]
pub struct RegIrqFlagsRxTimeout;

impl Register for RegIrqFlagsRxTimeout {
    open spec fn field(&self) -> RegField {
        RegField { address: 0x12, offset: 7, width: 1 }
    }

    fn address(&self) -> u8 {
        0x12
    }

    fn offset(&self) -> u8 {
        7
    }

    fn mask(&self) -> u8 {
        field_mask(7, 1)
    }
}

/// Packet reception complete interrupt: writing a 1 clears the IRQ
#[derive(Debug, Clone, Copy)]
pub struct RegIrqFlagsRxDone;

impl Register for RegIrqFlagsRxDone {
    open spec fn field(&self) -> RegField {
        RegField { address: 0x12, offset: 6, width: 1 }
    }

    fn address(&self) -> u8 {
        0x12
    }

    fn offset(&self) -> u8 {
        6
    }

    fn mask(&self) -> u8 {
        field_mask(6, 1)
    }
}

/// Payload CRC error interrupt: writing a 1 clears the IRQ
#[derive(Debug, Clone, Copy)]
pub struct RegIrqFlagsPayloadCrcError;

impl Register for RegIrqFlagsPayloadCrcError {
    open spec fn field(&self) -> RegField {
        RegField { address: 0x12, offset: 5, width: 1 }
    }

    fn address(&self) -> u8 {
        0x12
    }

    fn offset(&self) -> u8 {
        5
    }

    fn mask(&self) -> u8 {
        field_mask(5, 1)
    }
}

/// FIFO Payload transmission complete interrupt: writing a 1 clears the IRQ
#[derive(Debug, Clone, Copy)]
pub struct RegIrqFlagsTxDone;

impl Register for RegIrqFlagsTxDone {
    open spec fn field(&self) -> RegField {
        RegField { address: 0x12, offset: 3, width: 1 }
    }

    fn address(&self) -> u8 {
        0x12
    }

    fn offset(&self) -> u8 {
        3
    }

    fn mask(&self) -> u8 {
        field_mask(3, 1)
    }
}

/// Number of payload bytes of latest packet received
#[derive(Debug, Clone, Copy)]
pub struct RegRxNbBytes;

impl Register for RegRxNbBytes {
    open spec fn field(&self) -> RegField {
        RegField { address: 0x13, offset: 0, width: 8 }
    }

    fn address(&self) -> u8 {
        0x13
    }

    fn offset(&self) -> u8 {
        0
    }

    fn mask(&self) -> u8 {
        field_mask(0, 8)
    }
}

/// SNR of last packet recieved
#[derive(Debug, Clone, Copy)]
pub struct RegPktSnrValue;

impl Register for RegPktSnrValue {
    open spec fn field(&self) -> RegField {
        RegField { address: 0x19, offset: 0, width: 8 }
    }

    fn address(&self) -> u8 {
        0x19
    }

    fn offset(&self) -> u8 {
        0
    }

    fn mask(&self) -> u8 {
        field_mask(0, 8)
    }
}

/// RSSI of last packet recieved
#[derive(Debug, Clone, Copy)]
pub struct RegPktRssiValue;

impl Register for RegPktRssiValue {
    open spec fn field(&self) -> RegField {
        RegField { address: 0x1A, offset: 0, width: 8 }
    }

    fn address(&self) -> u8 {
        0x1A
    }

    fn offset(&self) -> u8 {
        0
    }

    fn mask(&self) -> u8 {
        field_mask(0, 8)
    }
}

/// Current RSSI value
#[derive(Debug, Clone, Copy)]
pub struct RegRssiValue;

impl Register for RegRssiValue {
    open spec fn field(&self) -> RegField {
        RegField { address: 0x1B, offset: 0, width: 8 }
    }

    fn address(&self) -> u8 {
        0x1B
    }

    fn offset(&self) -> u8 {
        0
    }

    fn mask(&self) -> u8 {
        field_mask(0, 8)
    }
}

/// Signal bandwidth (see datasheet for more info)
#[derive(Debug, Clone, Copy)]
pub struct RegModemConfig1Bw;

impl Register for RegModemConfig1Bw {
    open spec fn field(&self) -> RegField {
        RegField { address: 0x1D, offset: 4, width: 4 }
    }

    fn address(&self) -> u8 {
        0x1D
    }

    fn offset(&self) -> u8 {
        4
    }

    fn mask(&self) -> u8 {
        field_mask(4, 4)
    }
}

/// Error coding rate (see datasheet for more info)
#[derive(Debug, Clone, Copy)]
pub struct RegModemConfig1CodingRate;

impl Register for RegModemConfig1CodingRate {
    open spec fn field(&self) -> RegField {
        RegField { address: 0x1D, offset: 1, width: 3 }
    }

    fn address(&self) -> u8 {
        0x1D
    }

    fn offset(&self) -> u8 {
        1
    }

    fn mask(&self) -> u8 {
        field_mask(1, 3)
    }
}

/// 0 -> Explicit header mode, 1 -> Implicit header mode
#[derive(Debug, Clone, Copy)]
pub struct RegModemConfig1ImplicitHeaderModeOn;

impl Register for RegModemConfig1ImplicitHeaderModeOn {
    open spec fn field(&self) -> RegField {
        RegField { address: 0x1D, offset: 0, width: 1 }
    }

    fn address(&self) -> u8 {
        0x1D
    }

    fn offset(&self) -> u8 {
        0
    }

    fn mask(&self) -> u8 {
        field_mask(0, 1)
    }
}

/// SF rate (expressed as a base-2 logarithm, see datasheet for more info)
#[derive(Debug, Clone, Copy)]
pub struct RegModemConfig2SpreadingFactor;

impl Register for RegModemConfig2SpreadingFactor {
    open spec fn field(&self) -> RegField {
        RegField { address: 0x1E, offset: 4, width: 4 }
    }

    fn address(&self) -> u8 {
        0x1E
    }

    fn offset(&self) -> u8 {
        4
    }

    fn mask(&self) -> u8 {
        field_mask(4, 4)
    }
}

/// Enable CRC generation, and check on payload: 0 -> CRC disable, 1 -> CRC enable (see datasheet for more info)
#[derive(Debug, Clone, Copy)]
pub struct RegModemConfig2RxPayloadCrcOn;

impl Register for RegModemConfig2RxPayloadCrcOn {
    open spec fn field(&self) -> RegField {
        RegField { address: 0x1E, offset: 2, width: 1 }
    }

    fn address(&self) -> u8 {
        0x1E
    }

    fn offset(&self) -> u8 {
        2
    }

    fn mask(&self) -> u8 {
        field_mask(2, 1)
    }
}

/// RX Time-Out MSB
#[derive(Debug, Clone, Copy)]
pub struct RegModemConfig2SymbTimeout98;

impl Register for RegModemConfig2SymbTimeout98 {
    open spec fn field(&self) -> RegField {
        RegField { address: 0x1E, offset: 0, width: 2 }
    }

    fn address(&self) -> u8 {
        0x1E
    }

    fn offset(&self) -> u8 {
        0
    }

    fn mask(&self) -> u8 {
        field_mask(0, 2)
    }
}

/// RX Time-Out LSB; RX operation time-out value expressed as number of symbols: `TimeOut = SymbTimeout * Ts`
#[derive(Debug, Clone, Copy)]
pub struct RegSymbTimeoutLsb;

impl Register for RegSymbTimeoutLsb {
    open spec fn field(&self) -> RegField {
        RegField { address: 0x1F, offset: 0, width: 8 }
    }

    fn address(&self) -> u8 {
        0x1F
    }

    fn offset(&self) -> u8 {
        0
    }

    fn mask(&self) -> u8 {
        field_mask(0, 8)
    }
}

/// Preamble length MSB (see datasheet for more info)
#[derive(Debug, Clone, Copy)]
pub struct RegPreambleMsb;

impl Register for RegPreambleMsb {
    open spec fn field(&self) -> RegField {
        RegField { address: 0x20, offset: 0, width: 8 }
    }

    fn address(&self) -> u8 {
        0x20
    }

    fn offset(&self) -> u8 {
        0
    }

    fn mask(&self) -> u8 {
        field_mask(0, 8)
    }
}

/// Preamble Length LSB (see datasheet for more info)
#[derive(Debug, Clone, Copy)]
pub struct RegPreambleLsb;

impl Register for RegPreambleLsb {
    open spec fn field(&self) -> RegField {
        RegField { address: 0x21, offset: 0, width: 8 }
    }

    fn address(&self) -> u8 {
        0x21
    }

    fn offset(&self) -> u8 {
        0
    }

    fn mask(&self) -> u8 {
        field_mask(0, 8)
    }
}

/// Payload length in bytes; the register needs to be set in implicit header mode for the expected packet length (a `0` value is not permitted)
#[derive(Debug, Clone, Copy)]
pub struct RegPayloadLength;

impl Register for RegPayloadLength {
    open spec fn field(&self) -> RegField {
        RegField { address: 0x22, offset: 0, width: 8 }
    }

    fn address(&self) -> u8 {
        0x22
    }

    fn offset(&self) -> u8 {
        0
    }

    fn mask(&self) -> u8 {
        field_mask(0, 8)
    }
}

/// 0 -> Disabled, 1 -> Enabled; mandated for when the symbol length exceeds 16ms
#[derive(Debug, Clone, Copy)]
pub struct RegModemConfig3LowDataRateOptimize;

impl Register for RegModemConfig3LowDataRateOptimize {
    open spec fn field(&self) -> RegField {
        RegField { address: 0x26, offset: 3, width: 1 }
    }

    fn address(&self) -> u8 {
        0x26
    }

    fn offset(&self) -> u8 {
        3
    }

    fn mask(&self) -> u8 {
        field_mask(3, 1)
    }
}

/// Invert the LoRa I and Q signals; 0 -> normal mode, 1 -> I and Q signals are inverted
#[derive(Debug, Clone, Copy)]
pub struct RegInvertIQ;

impl Register for RegInvertIQ {
    open spec fn field(&self) -> RegField {
        RegField { address: 0x33, offset: 6, width: 1 }
    }

    fn address(&self) -> u8 {
        0x33
    }

    fn offset(&self) -> u8 {
        6
    }

    fn mask(&self) -> u8 {
        field_mask(6, 1)
    }
}

/// LoRa Sync Word; value 0x34 is used for LoRaWAN networks
#[derive(Debug, Clone, Copy)]
pub struct RegSyncWord;

impl Register for RegSyncWord {
    open spec fn field(&self) -> RegField {
        RegField { address: 0x39, offset: 0, width: 8 }
    }

    fn address(&self) -> u8 {
        0x39
    }

    fn offset(&self) -> u8 {
        0
    }

    fn mask(&self) -> u8 {
        field_mask(0, 8)
    }
}

/// Semtech ID relating the silicon revision
#[derive(Debug, Clone, Copy)]
pub struct RegVersion;

impl Register for RegVersion {
    open spec fn field(&self) -> RegField {
        RegField { address: 0x42, offset: 0, width: 8 }
    }

    fn address(&self) -> u8 {
        0x42
    }

    fn offset(&self) -> u8 {
        0
    }

    fn mask(&self) -> u8 {
        field_mask(0, 8)
    }
}

/// The highest register address worth dumping
pub const REGISTER_MAX: u8 = 0x64;

/// A whole register, addressed by number; useful for dumping the register file
#[derive(Debug, Clone, Copy)]
pub struct DynamicRegister(pub u8);

impl Register for DynamicRegister {
    open spec fn field(&self) -> RegField {
        RegField { address: self.0, offset: 0, width: 8 }
    }

    fn address(&self) -> u8 {
        self.0
    }

    fn offset(&self) -> u8 {
        0
    }

    fn mask(&self) -> u8 {
        field_mask(0, 8)
    }
}

} // verus!
