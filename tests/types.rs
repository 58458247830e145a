use rfm95_lora::error::Error;
use rfm95_lora::lora::config::Builder;
use rfm95_lora::lora::types::{
    Bandwidth, CodingRate, CrcMode, Duration, Frequency, HeaderMode, Polarity, PreambleLength, SpreadingFactor,
    SyncWord,
};

#[test]
fn spreading_factor_round_trip() {
    for sf in [SpreadingFactor::S7, SpreadingFactor::S8, SpreadingFactor::S9, SpreadingFactor::S10, SpreadingFactor::S11, SpreadingFactor::S12] {
        assert_eq!(SpreadingFactor::try_from(sf.as_u8()), Ok(sf));
    }
    assert_eq!(SpreadingFactor::S7.as_u8(), 7);
    assert_eq!(SpreadingFactor::S12.as_u8(), 12);
    for raw in [0u8, 6, 13, 255] {
        assert_eq!(SpreadingFactor::try_from(raw), Err(Error::InvalidParameterValue));
    }
}

#[test]
fn bandwidth_round_trip() {
    let all = [
        Bandwidth::B500, Bandwidth::B250, Bandwidth::B125, Bandwidth::B62_5, Bandwidth::B41_7,
        Bandwidth::B31_25, Bandwidth::B20_8, Bandwidth::B15_6, Bandwidth::B10_4, Bandwidth::B7_8,
    ];
    for bw in all {
        assert_eq!(Bandwidth::try_from(bw.as_u8()), Ok(bw));
    }
    assert_eq!(Bandwidth::B500.as_u8(), 0b1001);
    assert_eq!(Bandwidth::B7_8.as_u8(), 0);
    assert_eq!(Bandwidth::try_from(10), Err(Error::InvalidParameterValue));
    assert_eq!(Bandwidth::try_from(15), Err(Error::InvalidParameterValue));
}

#[test]
fn coding_rate_round_trip() {
    for cr in [CodingRate::C4_5, CodingRate::C4_6, CodingRate::C4_7, CodingRate::C4_8] {
        assert_eq!(CodingRate::try_from(cr.as_u8()), Ok(cr));
    }
    assert_eq!(CodingRate::C4_5.as_u8(), 1);
    assert_eq!(CodingRate::C4_8.as_u8(), 4);
    assert_eq!(CodingRate::try_from(0), Err(Error::InvalidParameterValue));
    assert_eq!(CodingRate::try_from(5), Err(Error::InvalidParameterValue));
}

#[test]
fn binary_fields_round_trip() {
    for p in [Polarity::Normal, Polarity::Inverted] {
        assert_eq!(Polarity::try_from(p.as_u8()), Ok(p));
    }
    for h in [HeaderMode::Explicit, HeaderMode::Implicit] {
        assert_eq!(HeaderMode::try_from(h.as_u8()), Ok(h));
    }
    for c in [CrcMode::Disabled, CrcMode::Enabled] {
        assert_eq!(CrcMode::try_from(c.as_u8()), Ok(c));
    }
    assert_eq!(Polarity::Inverted.as_u8(), 1);
    assert_eq!(HeaderMode::Implicit.as_u8(), 1);
    assert_eq!(CrcMode::Enabled.as_u8(), 1);
    assert_eq!(Polarity::try_from(2), Err(Error::InvalidParameterValue));
    assert_eq!(HeaderMode::try_from(2), Err(Error::InvalidParameterValue));
    assert_eq!(CrcMode::try_from(7), Err(Error::InvalidParameterValue));
}

#[test]
fn newtype_values() {
    assert_eq!(SyncWord::public().as_u8(), 0x34);
    assert_eq!(SyncWord::private().as_u8(), 0x12);
    assert_eq!(SyncWord::new(0x42).as_u8(), 0x42);
    assert_eq!(PreambleLength::l8().as_u16(), 8);
    assert_eq!(PreambleLength::new(300).as_u16(), 300);
    assert_eq!(Frequency::f868_1().as_u32(), 868_100_000);
    assert_eq!(Frequency::f868_3().as_u32(), 868_300_000);
    assert_eq!(Frequency::f868_5().as_u32(), 868_500_000);
    assert_eq!(Frequency::f869_5().as_u32(), 869_500_000);
    assert_eq!(Frequency::hz(433_000_000).as_u32(), 433_000_000);
}

#[test]
fn duration_conversions() {
    assert_eq!(Duration::from_micros(1234).as_micros(), 1234);
    assert_eq!(Duration::from_millis(16).as_micros(), 16_000);
    assert_eq!(Duration::from_millis(u64::MAX).as_micros(), u64::MAX);
}

#[test]
fn builder_sets_every_field() {
    let config = Builder::builder()
        .set_frequency(Frequency::hz(915_000_000))
        .set_sync_word(SyncWord::private())
        .set_bandwidth(Bandwidth::B62_5)
        .set_coding_rate(CodingRate::C4_5)
        .set_crc_mode(CrcMode::Disabled)
        .set_header_mode(HeaderMode::Explicit)
        .set_polarity(Polarity::Inverted)
        .set_preamble_length(PreambleLength::l8())
        .set_spreading_factor(SpreadingFactor::S10);
    assert_eq!(config.spreading_factor(), SpreadingFactor::S10);
    assert_eq!(config.bandwidth(), Bandwidth::B62_5);
    assert_eq!(config.coding_rate(), CodingRate::C4_5);
    assert_eq!(config.polarity(), Polarity::Inverted);
    assert_eq!(config.header_mode(), HeaderMode::Explicit);
    assert_eq!(config.crc_mode(), CrcMode::Disabled);
    assert_eq!(config.sync_word(), SyncWord::private());
    assert_eq!(config.preamble_len(), PreambleLength::l8());
    assert_eq!(config.frequency(), Frequency::hz(915_000_000));
}

#[test]
fn error_messages() {
    assert_eq!(Error::RxTimeout.message(), "RX timeout");
    assert_eq!(Error::RxCrcError.message(), "RX CRC error");
    assert_eq!(Error::InvalidInputLength.message(), "Invalid TX data length");
}

#[test]
fn integer_conversions() {
    assert_eq!(SyncWord::from(0x34u8), SyncWord::public());
    assert_eq!(u8::from(SyncWord::private()), 0x12);
    assert_eq!(PreambleLength::from(12u16).as_u16(), 12);
    assert_eq!(u16::from(PreambleLength::l8()), 8);
    assert_eq!(Frequency::from(915_000_000u32).as_u32(), 915_000_000);
    assert_eq!(u32::from(Frequency::f868_1()), 868_100_000);
}

#[test]
fn hertz_conversions() {
    let rate = fugit::HertzU32::from(Frequency::hz(868_100_000));
    assert_eq!(rate.to_Hz(), 868_100_000);
    assert_eq!(rate.to_kHz(), 868_100);
    assert_eq!(Frequency::from(fugit::HertzU32::MHz(915)).as_u32(), 915_000_000);
    assert_eq!(Frequency::from_hertz(fugit::HertzU32::Hz(433)).as_u32(), 433);
    assert_eq!(Frequency::hz(42).to_hertz().to_Hz(), 42);
}
