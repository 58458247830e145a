use rfm95_lora::lora::airtime::{airtime, ceildiv, needs_ldo, symbol_airtime};
use rfm95_lora::lora::config::{Builder, Config};
use rfm95_lora::lora::types::{
    Bandwidth, CodingRate, CrcMode, Frequency, HeaderMode, Polarity, PreambleLength, SpreadingFactor, SyncWord,
};

fn config(sf: SpreadingFactor, bw: Bandwidth, cr: CodingRate, crc: CrcMode, header: HeaderMode, preamble: u16) -> Config {
    Builder::builder()
        .set_spreading_factor(sf)
        .set_bandwidth(bw)
        .set_coding_rate(cr)
        .set_polarity(Polarity::Normal)
        .set_header_mode(header)
        .set_crc_mode(crc)
        .set_sync_word(SyncWord::private())
        .set_preamble_length(PreambleLength::new(preamble))
        .set_frequency(Frequency::hz(915_000_000))
}

#[test]
fn ceildiv_rounds_up() {
    assert_eq!(ceildiv(10, 3), 4);
    assert_eq!(ceildiv(9, 3), 3);
    assert_eq!(ceildiv(0, 5), 0);
    assert_eq!(ceildiv(1, 1), 1);
    assert_eq!(ceildiv(i32::MAX, 1), i32::MAX);
    assert_eq!(ceildiv(i32::MAX, 2), 1 << 30);
}

#[test]
fn ceildiv_covers_numerator_tightly() {
    for a in [0i32, 1, 2, 7, 99, 100, 101, 1_000_003, i32::MAX - 1] {
        for b in [1i32, 2, 3, 20, 32, 48, 1000, 65_537] {
            let q = ceildiv(a, b) as i64;
            assert!(q * b as i64 >= a as i64, "{a} {b}");
            assert!((q - 1) * (b as i64) < a as i64, "{a} {b}");
        }
    }
}

#[test]
fn ceildiv_truncates_negative_numerators() {
    // (num + divisor - 1) / divisor with Rust's truncating division
    assert_eq!(ceildiv(-20, 40), 0);
    assert_eq!(ceildiv(-100, 40), -1);
    assert_eq!(ceildiv(7, -2), -2);
}

#[test]
fn symbol_airtime_extremes() {
    assert_eq!(symbol_airtime(SpreadingFactor::S7, Bandwidth::B500).as_micros(), 256);
    assert_eq!(symbol_airtime(SpreadingFactor::S12, Bandwidth::B7_8).as_micros(), 524_288);
}

#[test]
fn symbol_airtime_table() {
    assert_eq!(symbol_airtime(SpreadingFactor::S10, Bandwidth::B62_5).as_micros(), 16 * 1024);
    assert_eq!(symbol_airtime(SpreadingFactor::S9, Bandwidth::B41_7).as_micros(), 24 * 512);
    assert_eq!(symbol_airtime(SpreadingFactor::S8, Bandwidth::B10_4).as_micros(), 96 * 256);
    assert_eq!(symbol_airtime(SpreadingFactor::S11, Bandwidth::B125).as_micros(), 8 * 2048);
}

#[test]
fn needs_ldo_threshold() {
    assert!(needs_ldo(SpreadingFactor::S12, Bandwidth::B7_8));
    assert!(!needs_ldo(SpreadingFactor::S7, Bandwidth::B500));
    // 16 µs * 1024 = 16.384 ms is above the 16 ms threshold, 8 µs * 2048 = 16.384 ms too
    assert!(needs_ldo(SpreadingFactor::S10, Bandwidth::B62_5));
    assert!(needs_ldo(SpreadingFactor::S11, Bandwidth::B125));
    // 8 µs * 1024 = 8.192 ms is below it
    assert!(!needs_ldo(SpreadingFactor::S10, Bandwidth::B125));
}

#[test]
fn airtime_golden_sf10_b62_5() {
    let config = config(SpreadingFactor::S10, Bandwidth::B62_5, CodingRate::C4_5, CrcMode::Disabled, HeaderMode::Explicit, 8);
    // symbol: 16384 µs; preamble: (8 + 5) * 16384 = 212992 µs
    // payload: ceil((88 - 40 + 28) / (4 * (10 - 2))) = 3 blocks, 3 * 5 + 8 = 23 symbols = 376832 µs
    assert_eq!(airtime(11, config).as_micros(), 589_824);
}

#[test]
fn airtime_sf7_b125_with_crc() {
    let config = config(SpreadingFactor::S7, Bandwidth::B125, CodingRate::C4_8, CrcMode::Enabled, HeaderMode::Explicit, 8);
    // symbol 1024 µs, preamble 13 symbols; payload ceil((80 - 28 + 28 + 16) / 28) = 4, 4 * 8 + 8 = 40 symbols
    assert_eq!(airtime(10, config).as_micros(), (13 + 40) * 1024);
}

#[test]
fn airtime_empty_implicit_payload_has_only_eight_symbols() {
    let config = config(SpreadingFactor::S12, Bandwidth::B125, CodingRate::C4_5, CrcMode::Disabled, HeaderMode::Implicit, 6);
    // numerator 0 - 48 + 28 - 20 = -40 rounds to no payload blocks; SF12 at 125 kHz needs LDO
    assert_eq!(airtime(0, config).as_micros(), (11 + 8) * 32_768);
}
