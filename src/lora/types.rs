//! Small wrappers for type safety
use crate::error::Error;
use fugit::{HertzU32, Rate};
use vstd::prelude::*;

verus! {

/// A LoRa spreading factor
///
/// The register representation is the spreading factor itself (`S7 => 7`).
#[derive(Debug, Clone, Copy, PartialEq, Eq, Structural, PartialOrd, Ord)]
pub enum SpreadingFactor {
    /// Spreading factor 7 aka 128 chirps per symbol
    S7,
    /// Spreading factor 8 aka 256 chirps per symbol
    S8,
    /// Spreading factor 9 aka 512 chirps per symbol
    S9,
    /// Spreading factor 10 aka 1024 chirps per symbol
    S10,
    /// Spreading factor 11 aka 2048 chirps per symbol
    S11,
    /// Spreading factor 12 aka 4096 chirps per symbol
    S12,
}

impl SpreadingFactor {
    /// The register representation
    pub open spec fn spec_as_u8(self) -> u8 {
        match self {
            SpreadingFactor::S7 => 7,
            SpreadingFactor::S8 => 8,
            SpreadingFactor::S9 => 9,
            SpreadingFactor::S10 => 10,
            SpreadingFactor::S11 => 11,
            SpreadingFactor::S12 => 12,
        }
    }

    /// The spreading factor that a register value denotes, if any
    pub open spec fn spec_from_u8(value: u8) -> Option<Self> {
        if value == 7 {
            Some(SpreadingFactor::S7)
        } else if value == 8 {
            Some(SpreadingFactor::S8)
        } else if value == 9 {
            Some(SpreadingFactor::S9)
        } else if value == 10 {
            Some(SpreadingFactor::S10)
        } else if value == 11 {
            Some(SpreadingFactor::S11)
        } else if value == 12 {
            Some(SpreadingFactor::S12)
        } else {
            None
        }
    }

    /// The register representation
    pub fn as_u8(self) -> (r: u8)
        ensures
            r == self.spec_as_u8(),
    {
        match self {
            SpreadingFactor::S7 => 7,
            SpreadingFactor::S8 => 8,
            SpreadingFactor::S9 => 9,
            SpreadingFactor::S10 => 10,
            SpreadingFactor::S11 => 11,
            SpreadingFactor::S12 => 12,
        }
    }

    /// Decodes a register value
    pub fn from_u8(value: u8) -> (r: Result<Self, Error>)
        ensures
            r == decoded(Self::spec_from_u8(value)),
    {
        match value {
            7 => Ok(SpreadingFactor::S7),
            8 => Ok(SpreadingFactor::S8),
            9 => Ok(SpreadingFactor::S9),
            10 => Ok(SpreadingFactor::S10),
            11 => Ok(SpreadingFactor::S11),
            12 => Ok(SpreadingFactor::S12),
            _ => Err(Error::InvalidParameterValue),
        }
    }
}

impl TryFrom<u8> for SpreadingFactor {
    type Error = Error;

    fn try_from(value: u8) -> (r: Result<Self, Error>) {
        Self::from_u8(value)
    }
}

impl vstd::std_specs::convert::TryFromSpecImpl<u8> for SpreadingFactor {
    open spec fn obeys_try_from_spec() -> bool {
        true
    }

    open spec fn try_from_spec(v: u8) -> Result<Self, Error> {
        decoded(Self::spec_from_u8(v))
    }
}

/// The bandwidth to use
///
/// The register representation is opaque; it matches the modem's encoding.
#[derive(Debug, Clone, Copy, PartialEq, Eq, Structural, PartialOrd, Ord)]
pub enum Bandwidth {
    /// 500 kHz bandwidth
    B500,
    /// 250 kHz bandwidth
    B250,
    /// 125 kHz bandwidth
    B125,
    /// 62.5 kHz bandwidth
    B62_5,
    /// 41.7 kHz bandwidth
    B41_7,
    /// 31.25 kHz bandwidth
    B31_25,
    /// 20.8 kHz bandwidth
    B20_8,
    /// 15.6 kHz bandwidth
    B15_6,
    /// 10.4 kHz bandwidth
    B10_4,
    /// 7.8 kHz bandwidth
    B7_8,
}

impl Bandwidth {
    /// The register representation
    pub open spec fn spec_as_u8(self) -> u8 {
        match self {
            Bandwidth::B500 => 9,
            Bandwidth::B250 => 8,
            Bandwidth::B125 => 7,
            Bandwidth::B62_5 => 6,
            Bandwidth::B41_7 => 5,
            Bandwidth::B31_25 => 4,
            Bandwidth::B20_8 => 3,
            Bandwidth::B15_6 => 2,
            Bandwidth::B10_4 => 1,
            Bandwidth::B7_8 => 0,
        }
    }

    /// The parameter that a register value denotes, if any
    pub open spec fn spec_from_u8(value: u8) -> Option<Self> {
        if value == 9 {
            Some(Bandwidth::B500)
        } else if value == 8 {
            Some(Bandwidth::B250)
        } else if value == 7 {
            Some(Bandwidth::B125)
        } else if value == 6 {
            Some(Bandwidth::B62_5)
        } else if value == 5 {
            Some(Bandwidth::B41_7)
        } else if value == 4 {
            Some(Bandwidth::B31_25)
        } else if value == 3 {
            Some(Bandwidth::B20_8)
        } else if value == 2 {
            Some(Bandwidth::B15_6)
        } else if value == 1 {
            Some(Bandwidth::B10_4)
        } else if value == 0 {
            Some(Bandwidth::B7_8)
        } else {
            None
        }
    }

    /// The register representation
    pub fn as_u8(self) -> (r: u8)
        ensures
            r == self.spec_as_u8(),
    {
        match self {
            Bandwidth::B500 => 9,
            Bandwidth::B250 => 8,
            Bandwidth::B125 => 7,
            Bandwidth::B62_5 => 6,
            Bandwidth::B41_7 => 5,
            Bandwidth::B31_25 => 4,
            Bandwidth::B20_8 => 3,
            Bandwidth::B15_6 => 2,
            Bandwidth::B10_4 => 1,
            Bandwidth::B7_8 => 0,
        }
    }

    /// Decodes a register value
    pub fn from_u8(value: u8) -> (r: Result<Self, Error>)
        ensures
            r == decoded(Self::spec_from_u8(value)),
    {
        match value {
            9 => Ok(Bandwidth::B500),
            8 => Ok(Bandwidth::B250),
            7 => Ok(Bandwidth::B125),
            6 => Ok(Bandwidth::B62_5),
            5 => Ok(Bandwidth::B41_7),
            4 => Ok(Bandwidth::B31_25),
            3 => Ok(Bandwidth::B20_8),
            2 => Ok(Bandwidth::B15_6),
            1 => Ok(Bandwidth::B10_4),
            0 => Ok(Bandwidth::B7_8),
            _ => Err(Error::InvalidParameterValue),
        }
    }
}

impl TryFrom<u8> for Bandwidth {
    type Error = Error;

    fn try_from(value: u8) -> (r: Result<Self, Error>) {
        Self::from_u8(value)
    }
}

impl vstd::std_specs::convert::TryFromSpecImpl<u8> for Bandwidth {
    open spec fn obeys_try_from_spec() -> bool {
        true
    }

    open spec fn try_from_spec(v: u8) -> Result<Self, Error> {
        decoded(Self::spec_from_u8(v))
    }
}

/// The coding rate for forward error correction
///
/// The register representation is the difference to the overhead divisor (`4/5 => 1`, `4/7 => 3`).
#[derive(Debug, Clone, Copy, PartialEq, Eq, Structural, PartialOrd, Ord)]
pub enum CodingRate {
    /// Coding rate 4/5 aka 1.25x overhead
    C4_5,
    /// Coding rate 4/6 aka 1.5x overhead
    C4_6,
    /// Coding rate 4/7 aka 1.75x overhead
    C4_7,
    /// Coding rate 4/8 aka 2x overhead
    C4_8,
}

impl CodingRate {
    /// The register representation
    pub open spec fn spec_as_u8(self) -> u8 {
        match self {
            CodingRate::C4_5 => 1,
            CodingRate::C4_6 => 2,
            CodingRate::C4_7 => 3,
            CodingRate::C4_8 => 4,
        }
    }

    /// The parameter that a register value denotes, if any
    pub open spec fn spec_from_u8(value: u8) -> Option<Self> {
        if value == 1 {
            Some(CodingRate::C4_5)
        } else if value == 2 {
            Some(CodingRate::C4_6)
        } else if value == 3 {
            Some(CodingRate::C4_7)
        } else if value == 4 {
            Some(CodingRate::C4_8)
        } else {
            None
        }
    }

    /// The register representation
    pub fn as_u8(self) -> (r: u8)
        ensures
            r == self.spec_as_u8(),
    {
        match self {
            CodingRate::C4_5 => 1,
            CodingRate::C4_6 => 2,
            CodingRate::C4_7 => 3,
            CodingRate::C4_8 => 4,
        }
    }

    /// Decodes a register value
    pub fn from_u8(value: u8) -> (r: Result<Self, Error>)
        ensures
            r == decoded(Self::spec_from_u8(value)),
    {
        match value {
            1 => Ok(CodingRate::C4_5),
            2 => Ok(CodingRate::C4_6),
            3 => Ok(CodingRate::C4_7),
            4 => Ok(CodingRate::C4_8),
            _ => Err(Error::InvalidParameterValue),
        }
    }
}

impl TryFrom<u8> for CodingRate {
    type Error = Error;

    fn try_from(value: u8) -> (r: Result<Self, Error>) {
        Self::from_u8(value)
    }
}

impl vstd::std_specs::convert::TryFromSpecImpl<u8> for CodingRate {
    open spec fn obeys_try_from_spec() -> bool {
        true
    }

    open spec fn try_from_spec(v: u8) -> Result<Self, Error> {
        decoded(Self::spec_from_u8(v))
    }
}

/// The IQ polarity
///
/// The register representation is `Normal => 0`, `Inverted => 1`.
#[derive(Debug, Clone, Copy, PartialEq, Eq, Structural)]
pub enum Polarity {
    /// Normal polarity, usually used for uplinks
    Normal,
    /// Inverted polarity, usually used for downlinks
    Inverted,
}

impl Polarity {
    /// The register representation
    pub open spec fn spec_as_u8(self) -> u8 {
        match self {
            Polarity::Normal => 0,
            Polarity::Inverted => 1,
        }
    }

    /// The parameter that a register value denotes, if any
    pub open spec fn spec_from_u8(value: u8) -> Option<Self> {
        if value == 0 {
            Some(Polarity::Normal)
        } else if value == 1 {
            Some(Polarity::Inverted)
        } else {
            None
        }
    }

    /// The register representation
    pub fn as_u8(self) -> (r: u8)
        ensures
            r == self.spec_as_u8(),
    {
        match self {
            Polarity::Normal => 0,
            Polarity::Inverted => 1,
        }
    }

    /// Decodes a register value
    pub fn from_u8(value: u8) -> (r: Result<Self, Error>)
        ensures
            r == decoded(Self::spec_from_u8(value)),
    {
        match value {
            0 => Ok(Polarity::Normal),
            1 => Ok(Polarity::Inverted),
            _ => Err(Error::InvalidParameterValue),
        }
    }
}

impl TryFrom<u8> for Polarity {
    type Error = Error;

    fn try_from(value: u8) -> (r: Result<Self, Error>) {
        Self::from_u8(value)
    }
}

impl vstd::std_specs::convert::TryFromSpecImpl<u8> for Polarity {
    open spec fn obeys_try_from_spec() -> bool {
        true
    }

    open spec fn try_from_spec(v: u8) -> Result<Self, Error> {
        decoded(Self::spec_from_u8(v))
    }
}

/// The LoRa header mode
///
/// The register representation is `Explicit => 0`, `Implicit => 1`.
#[derive(Debug, Clone, Copy, PartialEq, Eq, Structural)]
pub enum HeaderMode {
    /// Explicit header mode to include the header to allow dynamic decoding
    Explicit,
    /// Implicit header mode to omit the header if decoding parameters are known
    Implicit,
}

impl HeaderMode {
    /// The register representation
    pub open spec fn spec_as_u8(self) -> u8 {
        match self {
            HeaderMode::Explicit => 0,
            HeaderMode::Implicit => 1,
        }
    }

    /// The parameter that a register value denotes, if any
    pub open spec fn spec_from_u8(value: u8) -> Option<Self> {
        if value == 0 {
            Some(HeaderMode::Explicit)
        } else if value == 1 {
            Some(HeaderMode::Implicit)
        } else {
            None
        }
    }

    /// The register representation
    pub fn as_u8(self) -> (r: u8)
        ensures
            r == self.spec_as_u8(),
    {
        match self {
            HeaderMode::Explicit => 0,
            HeaderMode::Implicit => 1,
        }
    }

    /// Decodes a register value
    pub fn from_u8(value: u8) -> (r: Result<Self, Error>)
        ensures
            r == decoded(Self::spec_from_u8(value)),
    {
        match value {
            0 => Ok(HeaderMode::Explicit),
            1 => Ok(HeaderMode::Implicit),
            _ => Err(Error::InvalidParameterValue),
        }
    }
}

impl TryFrom<u8> for HeaderMode {
    type Error = Error;

    fn try_from(value: u8) -> (r: Result<Self, Error>) {
        Self::from_u8(value)
    }
}

impl vstd::std_specs::convert::TryFromSpecImpl<u8> for HeaderMode {
    open spec fn obeys_try_from_spec() -> bool {
        true
    }

    open spec fn try_from_spec(v: u8) -> Result<Self, Error> {
        decoded(Self::spec_from_u8(v))
    }
}

/// The CRC configuration
///
/// The register representation is `Disabled => 0`, `Enabled => 1`.
#[derive(Debug, Clone, Copy, PartialEq, Eq, Structural)]
pub enum CrcMode {
    /// CRC disabled
    Disabled,
    /// CRC enabled
    Enabled,
}

impl CrcMode {
    /// The register representation
    pub open spec fn spec_as_u8(self) -> u8 {
        match self {
            CrcMode::Disabled => 0,
            CrcMode::Enabled => 1,
        }
    }

    /// The parameter that a register value denotes, if any
    pub open spec fn spec_from_u8(value: u8) -> Option<Self> {
        if value == 0 {
            Some(CrcMode::Disabled)
        } else if value == 1 {
            Some(CrcMode::Enabled)
        } else {
            None
        }
    }

    /// The register representation
    pub fn as_u8(self) -> (r: u8)
        ensures
            r == self.spec_as_u8(),
    {
        match self {
            CrcMode::Disabled => 0,
            CrcMode::Enabled => 1,
        }
    }

    /// Decodes a register value
    pub fn from_u8(value: u8) -> (r: Result<Self, Error>)
        ensures
            r == decoded(Self::spec_from_u8(value)),
    {
        match value {
            0 => Ok(CrcMode::Disabled),
            1 => Ok(CrcMode::Enabled),
            _ => Err(Error::InvalidParameterValue),
        }
    }
}

impl TryFrom<u8> for CrcMode {
    type Error = Error;

    fn try_from(value: u8) -> (r: Result<Self, Error>) {
        Self::from_u8(value)
    }
}

impl vstd::std_specs::convert::TryFromSpecImpl<u8> for CrcMode {
    open spec fn obeys_try_from_spec() -> bool {
        true
    }

    open spec fn try_from_spec(v: u8) -> Result<Self, Error> {
        decoded(Self::spec_from_u8(v))
    }
}

/// Encoding a spreading factor and decoding the register value gives it back, and every register value
/// that decodes at all is the encoding of what it decodes to.
pub proof fn lemma_spreading_factor_round_trip(value: SpreadingFactor)
    ensures
        SpreadingFactor::spec_from_u8(value.spec_as_u8()) == Some(value),
        forall|raw: u8| #[trigger] SpreadingFactor::spec_from_u8(raw) is Some ==> SpreadingFactor::spec_from_u8(raw)->Some_0.spec_as_u8() == raw,
{
}

/// Encoding a bandwidth and decoding the register value gives it back, and every register value
/// that decodes at all is the encoding of what it decodes to.
pub proof fn lemma_bandwidth_round_trip(value: Bandwidth)
    ensures
        Bandwidth::spec_from_u8(value.spec_as_u8()) == Some(value),
        forall|raw: u8| #[trigger] Bandwidth::spec_from_u8(raw) is Some ==> Bandwidth::spec_from_u8(raw)->Some_0.spec_as_u8() == raw,
{
}

/// Encoding a coding rate and decoding the register value gives it back, and every register value
/// that decodes at all is the encoding of what it decodes to.
pub proof fn lemma_coding_rate_round_trip(value: CodingRate)
    ensures
        CodingRate::spec_from_u8(value.spec_as_u8()) == Some(value),
        forall|raw: u8| #[trigger] CodingRate::spec_from_u8(raw) is Some ==> CodingRate::spec_from_u8(raw)->Some_0.spec_as_u8() == raw,
{
}

/// Encoding a polarity and decoding the register value gives it back, and every register value
/// that decodes at all is the encoding of what it decodes to.
pub proof fn lemma_polarity_round_trip(value: Polarity)
    ensures
        Polarity::spec_from_u8(value.spec_as_u8()) == Some(value),
        forall|raw: u8| #[trigger] Polarity::spec_from_u8(raw) is Some ==> Polarity::spec_from_u8(raw)->Some_0.spec_as_u8() == raw,
{
}

/// Encoding a header mode and decoding the register value gives it back, and every register value
/// that decodes at all is the encoding of what it decodes to.
pub proof fn lemma_header_mode_round_trip(value: HeaderMode)
    ensures
        HeaderMode::spec_from_u8(value.spec_as_u8()) == Some(value),
        forall|raw: u8| #[trigger] HeaderMode::spec_from_u8(raw) is Some ==> HeaderMode::spec_from_u8(raw)->Some_0.spec_as_u8() == raw,
{
}

/// Encoding a crc mode and decoding the register value gives it back, and every register value
/// that decodes at all is the encoding of what it decodes to.
pub proof fn lemma_crc_mode_round_trip(value: CrcMode)
    ensures
        CrcMode::spec_from_u8(value.spec_as_u8()) == Some(value),
        forall|raw: u8| #[trigger] CrcMode::spec_from_u8(raw) is Some ==> CrcMode::spec_from_u8(raw)->Some_0.spec_as_u8() == raw,
{
}

/// The result of decoding a register value: the parameter, or `InvalidParameterValue`
pub open spec fn decoded<T>(value: Option<T>) -> Result<T, Error> {
    match value {
        Some(v) => Ok(v),
        None => Err(Error::InvalidParameterValue),
    }
}

} // verus!

verus! {

/// The LoRa sync word to use
#[derive(Debug, Clone, Copy, PartialEq, Eq, Structural)]
pub struct SyncWord(u8);

impl SyncWord {
    /// Public sync word
    pub fn public() -> (r: SyncWord)
        ensures
            r.spec_as_u8() == 0x34,
    {
        SyncWord(0x34)
    }

    /// Private sync word
    pub fn private() -> (r: SyncWord)
        ensures
            r.spec_as_u8() == 0x12,
    {
        SyncWord(0x12)
    }

    /// The raw sync word
    pub closed spec fn spec_as_u8(self) -> u8 {
        self.0
    }

    /// The value holding `raw`
    pub closed spec fn spec_new(raw: u8) -> Self {
        SyncWord(raw)
    }

    /// Create a new sync word from the given raw sync word
    pub fn new(word: u8) -> (r: Self)
        ensures
            r.spec_as_u8() == word,
            r == Self::spec_new(word),
    {
        SyncWord(word)
    }

    /// The sync word as `u8`
    pub fn as_u8(self) -> (r: u8)
        ensures
            r == self.spec_as_u8(),
    {
        self.0
    }
}

/// The preamble length in symbols
#[derive(Debug, Clone, Copy, PartialEq, Eq, Structural, PartialOrd, Ord)]
pub struct PreambleLength(u16);

impl PreambleLength {
    /// A preamble length of 8 symbols, used for LoRaWAN
    pub fn l8() -> (r: PreambleLength)
        ensures
            r.spec_as_u16() == 8,
    {
        PreambleLength(8)
    }

    /// The preamble length in symbols
    pub closed spec fn spec_as_u16(self) -> u16 {
        self.0
    }

    /// The value holding `raw`
    pub closed spec fn spec_new(raw: u16) -> Self {
        PreambleLength(raw)
    }

    /// Create a new preamble length from the given raw length
    pub fn new(len: u16) -> (r: Self)
        ensures
            r.spec_as_u16() == len,
            r == Self::spec_new(len),
    {
        PreambleLength(len)
    }

    /// The preamble length as `u16`
    pub fn as_u16(self) -> (r: u16)
        ensures
            r == self.spec_as_u16(),
    {
        self.0
    }
}

/// The frequency in Hz
#[derive(Debug, Clone, Copy, PartialEq, Eq, Structural, PartialOrd, Ord)]
pub struct Frequency(u32);

impl Frequency {
    /// 868.1 MHz (common LoRaWAN default frequency)
    pub fn f868_1() -> (r: Frequency)
        ensures
            r.spec_as_u32() == 868_100_000,
    {
        Frequency(868_100_000)
    }

    /// 868.3 MHz (common LoRaWAN default frequency)
    pub fn f868_3() -> (r: Frequency)
        ensures
            r.spec_as_u32() == 868_300_000,
    {
        Frequency(868_300_000)
    }

    /// 868.5 MHz (common LoRaWAN default frequency)
    pub fn f868_5() -> (r: Frequency)
        ensures
            r.spec_as_u32() == 868_500_000,
    {
        Frequency(868_500_000)
    }

    /// 869.5 MHz (useful due to its 10% duty cycle in some areas)
    pub fn f869_5() -> (r: Frequency)
        ensures
            r.spec_as_u32() == 869_500_000,
    {
        Frequency(869_500_000)
    }

    /// The frequency in Hz
    pub closed spec fn spec_as_u32(self) -> u32 {
        self.0
    }

    /// The value holding `raw`
    pub closed spec fn spec_new(raw: u32) -> Self {
        Frequency(raw)
    }

    /// Create a new frequency from the given raw frequency in Hz
    pub fn hz(hz: u32) -> (r: Self)
        ensures
            r.spec_as_u32() == hz,
            r == Self::spec_new(hz),
    {
        Frequency(hz)
    }

    /// The frequency in Hertz as `u32`
    pub fn as_u32(self) -> (r: u32)
        ensures
            r == self.spec_as_u32(),
    {
        self.0
    }
}

/// A span of time with microsecond resolution
#[derive(Debug, Clone, Copy, PartialEq, Eq, Structural, PartialOrd, Ord)]
pub struct Duration {
    micros: u64,
}

impl Duration {
    /// The length in microseconds
    pub closed spec fn spec_micros(self) -> u64 {
        self.micros
    }

    /// A duration of the given number of microseconds
    pub fn from_micros(micros: u64) -> (r: Self)
        ensures
            r.spec_micros() == micros,
    {
        Duration { micros }
    }

    /// A duration of the given number of milliseconds, saturating at the largest representable length
    pub fn from_millis(millis: u64) -> (r: Self)
        ensures
            r.spec_micros() == if millis * 1000 <= u64::MAX { (millis * 1000) as u64 } else { u64::MAX },
    {
        if millis <= u64::MAX / 1000 {
            Duration { micros: millis * 1000 }
        } else {
            Duration { micros: u64::MAX }
        }
    }

    /// The length in whole microseconds
    pub fn as_micros(self) -> (r: u64)
        ensures
            r == self.spec_micros(),
    {
        self.micros
    }
}

impl From<u8> for SyncWord {
    fn from(value: u8) -> (r: SyncWord) {
        SyncWord::new(value)
    }
}

impl vstd::std_specs::convert::FromSpecImpl<u8> for SyncWord {
    open spec fn obeys_from_spec() -> bool {
        true
    }

    open spec fn from_spec(v: u8) -> SyncWord {
        SyncWord::spec_new(v)
    }
}

impl From<SyncWord> for u8 {
    fn from(value: SyncWord) -> (r: u8) {
        value.as_u8()
    }
}

impl vstd::std_specs::convert::FromSpecImpl<SyncWord> for u8 {
    open spec fn obeys_from_spec() -> bool {
        true
    }

    open spec fn from_spec(v: SyncWord) -> u8 {
        v.spec_as_u8()
    }
}

impl From<u16> for PreambleLength {
    fn from(value: u16) -> (r: PreambleLength) {
        PreambleLength::new(value)
    }
}

impl vstd::std_specs::convert::FromSpecImpl<u16> for PreambleLength {
    open spec fn obeys_from_spec() -> bool {
        true
    }

    open spec fn from_spec(v: u16) -> PreambleLength {
        PreambleLength::spec_new(v)
    }
}

impl From<PreambleLength> for u16 {
    fn from(value: PreambleLength) -> (r: u16) {
        value.as_u16()
    }
}

impl vstd::std_specs::convert::FromSpecImpl<PreambleLength> for u16 {
    open spec fn obeys_from_spec() -> bool {
        true
    }

    open spec fn from_spec(v: PreambleLength) -> u16 {
        v.spec_as_u16()
    }
}

impl From<u32> for Frequency {
    fn from(value: u32) -> (r: Frequency) {
        Frequency::hz(value)
    }
}

impl vstd::std_specs::convert::FromSpecImpl<u32> for Frequency {
    open spec fn obeys_from_spec() -> bool {
        true
    }

    open spec fn from_spec(v: u32) -> Frequency {
        Frequency::spec_new(v)
    }
}

impl From<Frequency> for u32 {
    fn from(value: Frequency) -> (r: u32) {
        value.as_u32()
    }
}

impl vstd::std_specs::convert::FromSpecImpl<Frequency> for u32 {
    open spec fn obeys_from_spec() -> bool {
        true
    }

    open spec fn from_spec(v: Frequency) -> u32 {
        v.spec_as_u32()
    }
}

#[verifier::external_type_specification]
#[verifier::external_body]
#[verifier::reject_recursive_types(T)]
pub struct ExRate<T, const NOM: u32, const DENOM: u32>(Rate<T, NOM, DENOM>);

/// The number of hertz a `fugit` rate in whole hertz holds
pub uninterp spec fn hertz_count(rate: HertzU32) -> u32;

/// Relies on `fugit::Rate::<u32, 1, 1>::Hz`: a rate in whole hertz holds the given count unscaled.
#[verifier::external_body]
fn hertz_rate(hz: u32) -> (r: HertzU32)
    ensures
        hertz_count(r) == hz,
{
    HertzU32::Hz(hz)
}

/// Relies on `fugit::Rate::<u32, 1, 1>::to_Hz`: a rate in whole hertz gives back its count unscaled.
#[verifier::external_body]
fn hertz_of(rate: HertzU32) -> (r: u32)
    ensures
        r == hertz_count(rate),
{
    rate.to_Hz()
}

impl Frequency {
    /// The frequency as a `fugit` rate
    pub fn to_hertz(self) -> (r: HertzU32)
        ensures
            hertz_count(r) == self.spec_as_u32(),
    {
        hertz_rate(self.as_u32())
    }

    /// The frequency of a `fugit` rate
    pub fn from_hertz(rate: HertzU32) -> (r: Frequency)
        ensures
            r.spec_as_u32() == hertz_count(rate),
            r == Frequency::spec_new(hertz_count(rate)),
    {
        Frequency::hz(hertz_of(rate))
    }
}

impl From<Frequency> for HertzU32 {
    fn from(value: Frequency) -> (r: HertzU32) {
        value.to_hertz()
    }
}

/// The conversion is described by [`Frequency::to_hertz`]; a rate is not a plain value
impl vstd::std_specs::convert::FromSpecImpl<Frequency> for HertzU32 {
    open spec fn obeys_from_spec() -> bool {
        false
    }

    open spec fn from_spec(v: Frequency) -> HertzU32 {
        arbitrary()
    }
}

impl From<HertzU32> for Frequency {
    fn from(value: HertzU32) -> (r: Frequency) {
        Frequency::from_hertz(value)
    }
}

impl vstd::std_specs::convert::FromSpecImpl<HertzU32> for Frequency {
    open spec fn obeys_from_spec() -> bool {
        true
    }

    open spec fn from_spec(v: HertzU32) -> Frequency {
        Frequency::spec_new(hertz_count(v))
    }
}

} // verus!
