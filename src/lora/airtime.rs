//! Symbol timing and airtime arithmetic
use crate::lora::config::Config;
use crate::lora::types::{Bandwidth, Duration, SpreadingFactor};
use vstd::prelude::*;

verus! {

/// Rust's integer division, which truncates towards zero
pub open spec fn trunc_div(x: int, y: int) -> int {
    if (x >= 0) == (y > 0) {
        if x >= 0 { x / y } else { (-x) / (-y) }
    } else {
        if x >= 0 { -(x / (-y)) } else { -((-x) / y) }
    }
}

/// The ceiling division as computed by [`ceildiv`]: `(num + divisor - 1) / divisor`, truncating
pub open spec fn spec_ceildiv(num: int, divisor: int) -> int {
    trunc_div(num + divisor - 1, divisor)
}

/// Utility function to compute a ceiling integer division
///
/// The intermediate sum is formed in 64 bits, so it cannot overflow.
pub fn ceildiv(num: i32, divided_by: i32) -> (r: i32)
    requires
        divided_by != 0,
    ensures
        r == spec_ceildiv(num as int, divided_by as int) as i32,
{
    // Rust's truncating division, taken over the magnitudes of the 64-bit operands
    let n = num as i64 + divided_by as i64 - 1;
    let d = divided_by as i64;
    let result: i64 = if (n >= 0) == (d > 0) {
        if n >= 0 { n / d } else { (-n) / (-d) }
    } else {
        if n >= 0 { -(n / (-d)) } else { -((-n) / d) }
    };
    result as i32
}

/// For a non-negative numerator and a positive divisor, the value [`ceildiv`] returns is the least multiple
/// count that covers the numerator: `ceildiv(a, b) * b >= a` and `(ceildiv(a, b) - 1) * b < a`. A zero
/// divisor is excluded by `ceildiv`'s precondition.
pub proof fn lemma_ceildiv_bounds(a: i32, b: i32)
    requires
        a >= 0,
        b > 0,
    ensures
        (spec_ceildiv(a as int, b as int) as i32) as int == spec_ceildiv(a as int, b as int),
        ({
            let q = spec_ceildiv(a as int, b as int) as i32;
            &&& q * b >= a
            &&& (q - 1) * b < a
        }),
{
    let n = a as int + b as int - 1;
    let q = n / (b as int);
    assert(q * b <= n && n < (q + 1) * b) by (nonlinear_arith)
        requires
            q == n / (b as int),
            b > 0,
            n >= 0,
    ;
    assert(0 <= q <= n) by (nonlinear_arith)
        requires
            q == n / (b as int),
            b > 0,
            n >= 0,
    ;
    assert(q * b >= a) by (nonlinear_arith)
        requires
            n < (q + 1) * b,
            n == a + b - 1,
    ;
    assert((q - 1) * b < a) by (nonlinear_arith)
        requires
            q * b <= n,
            n == a + b - 1,
    ;
    assert(q <= a) by (nonlinear_arith)
        requires
            (q - 1) * b < a,
            b >= 1,
            q >= 0,
            a >= 0,
    ;
}

/// The duration of one chip in microseconds: the inverse of the bandwidth
pub open spec fn spec_chip_micros(bandwidth: Bandwidth) -> u64 {
    match bandwidth {
        Bandwidth::B500 => 2,
        Bandwidth::B250 => 4,
        Bandwidth::B125 => 8,
        Bandwidth::B62_5 => 16,
        Bandwidth::B41_7 => 24,
        Bandwidth::B31_25 => 32,
        Bandwidth::B20_8 => 48,
        Bandwidth::B15_6 => 64,
        Bandwidth::B10_4 => 96,
        Bandwidth::B7_8 => 128,
    }
}

/// The number of chips per symbol: `2^spreading_factor`
pub open spec fn spec_chip_count(spreading_factor: SpreadingFactor) -> u64 {
    vstd::arithmetic::power2::pow2(spreading_factor.spec_as_u8() as nat) as u64
}

/// The airtime of one symbol in microseconds
pub open spec fn spec_symbol_micros(spreading_factor: SpreadingFactor, bandwidth: Bandwidth) -> u64 {
    (spec_chip_micros(bandwidth) * spec_chip_count(spreading_factor)) as u64
}

/// The symbol airtime above which the modem needs low-datarate optimization (16 ms)
pub open spec fn ldo_threshold_micros() -> u64 {
    16_000
}

/// Whether a symbol is longer than the low-datarate-optimization threshold
pub open spec fn spec_needs_ldo(spreading_factor: SpreadingFactor, bandwidth: Bandwidth) -> bool {
    spec_symbol_micros(spreading_factor, bandwidth) > ldo_threshold_micros()
}

/// The chip count of every spreading factor, with the bound that keeps symbol airtimes small
proof fn lemma_chip_count(spreading_factor: SpreadingFactor)
    ensures
        128 <= spec_chip_count(spreading_factor) <= 4096,
        spreading_factor == SpreadingFactor::S7 ==> spec_chip_count(spreading_factor) == 128,
        spreading_factor == SpreadingFactor::S8 ==> spec_chip_count(spreading_factor) == 256,
        spreading_factor == SpreadingFactor::S9 ==> spec_chip_count(spreading_factor) == 512,
        spreading_factor == SpreadingFactor::S10 ==> spec_chip_count(spreading_factor) == 1024,
        spreading_factor == SpreadingFactor::S11 ==> spec_chip_count(spreading_factor) == 2048,
        spreading_factor == SpreadingFactor::S12 ==> spec_chip_count(spreading_factor) == 4096,
{
    vstd::arithmetic::power2::lemma2_to64();
}

/// Computes the duration of a single chip (not chirp!) for the given bandwidth
fn chip_duration(bandwidth: Bandwidth) -> (r: Duration)
    ensures
        r.spec_micros() == spec_chip_micros(bandwidth),
{
    match bandwidth {
        Bandwidth::B500 => Duration::from_micros(2),
        Bandwidth::B250 => Duration::from_micros(4),
        Bandwidth::B125 => Duration::from_micros(8),
        Bandwidth::B62_5 => Duration::from_micros(16),
        Bandwidth::B41_7 => Duration::from_micros(24),
        Bandwidth::B31_25 => Duration::from_micros(32),
        Bandwidth::B20_8 => Duration::from_micros(48),
        Bandwidth::B15_6 => Duration::from_micros(64),
        Bandwidth::B10_4 => Duration::from_micros(96),
        Bandwidth::B7_8 => Duration::from_micros(128),
    }
}

/// The amount of chips per symbol for the given spreading factor
fn chip_count(spreading_factor: SpreadingFactor) -> (r: u32)
    ensures
        r == spec_chip_count(spreading_factor),
{
    proof {
        lemma_chip_count(spreading_factor);
        vstd::arithmetic::power2::lemma2_to64();
    }
    let exponent = spreading_factor.as_u8();
    let mut count: u32 = 1;
    let mut i: u8 = 0;
    while i < exponent
        invariant
            exponent == spreading_factor.spec_as_u8(),
            7 <= exponent <= 12,
            i <= exponent,
            count == vstd::arithmetic::power2::pow2(i as nat),
        decreases exponent - i,
    {
        proof {
            vstd::arithmetic::power2::lemma_pow2_unfold((i + 1) as nat);
            vstd::arithmetic::power2::lemma2_to64();
        }
        count = count * 2;
        i = i + 1;
    }
    count
}

/// Computes the airtime of a single symbol for the given bandwidth and spreading factor
pub fn symbol_airtime(spreading_factor: SpreadingFactor, bandwidth: Bandwidth) -> (r: Duration)
    ensures
        r.spec_micros() == spec_symbol_micros(spreading_factor, bandwidth),
{
    proof {
        lemma_chip_count(spreading_factor);
    }
    let chip_duration = chip_duration(bandwidth).as_micros();
    let chip_count = chip_count(spreading_factor) as u64;
    Duration::from_micros(chip_duration * chip_count)
}

/// Computes if a configuration needs low-datarate-optimization
///
/// Low-datarate-optimization must be enabled on the modem if a single symbol needs more than 16ms airtime.
pub fn needs_ldo(spreading_factor: SpreadingFactor, bandwidth: Bandwidth) -> (r: bool)
    ensures
        r == spec_needs_ldo(spreading_factor, bandwidth),
{
    let threshold = Duration::from_millis(16);
    symbol_airtime(spreading_factor, bandwidth).as_micros() > threshold.as_micros()
}

/// The largest payload length for which the symbol-count formula stays within 32-bit arithmetic
pub const AIRTIME_MAX_PAYLOAD_LEN: usize = 0x0FFF_FFF0;

/// The airtime of the preamble in microseconds: five symbols of overhead on top of the preamble length
///
/// The modem's real overhead is 4.25 symbols; the extra three quarters are a deliberate safety margin.
pub open spec fn spec_preamble_micros(config: Config) -> int {
    (config.spec_preamble_len().spec_as_u16() + 5) * spec_symbol_micros(
        config.spec_spreading_factor(),
        config.spec_bandwidth(),
    )
}

/// The low-datarate-optimization flag of a configuration, as `0` or `1`
pub open spec fn spec_de(config: Config) -> int {
    if spec_needs_ldo(config.spec_spreading_factor(), config.spec_bandwidth()) {
        1
    } else {
        0
    }
}

/// The numerator of the payload symbol formula: `8PL - 4SF + 28 + 16CRC - 20IH`
pub open spec fn spec_payload_numerator(payload_len: int, config: Config) -> int {
    8 * payload_len - 4 * config.spec_spreading_factor().spec_as_u8() + 28 + 16
        * config.spec_crc_mode().spec_as_u8() - 20 * config.spec_header_mode().spec_as_u8()
}

/// The denominator of the payload symbol formula: `4(SF - 2DE)`
pub open spec fn spec_payload_denominator(config: Config) -> int {
    4 * (config.spec_spreading_factor().spec_as_u8() - 2 * spec_de(config))
}

/// The number of payload symbols, from the SX1276 datasheet:
/// `8 + max(ceil((8PL - 4SF + 28 + 16CRC - 20IH) / 4(SF - 2DE)) * (CR + 4), 0)`
pub open spec fn spec_payload_symbols(payload_len: int, config: Config) -> int {
    let blocks = spec_ceildiv(
        spec_payload_numerator(payload_len, config),
        spec_payload_denominator(config),
    ) * (config.spec_coding_rate().spec_as_u8() + 4);
    (if blocks > 0 { blocks } else { 0 }) + 8
}

/// The airtime of the payload in microseconds
pub open spec fn spec_payload_micros(payload_len: int, config: Config) -> int {
    spec_payload_symbols(payload_len, config) * spec_symbol_micros(
        config.spec_spreading_factor(),
        config.spec_bandwidth(),
    )
}

/// The airtime of a whole message in microseconds
pub open spec fn spec_airtime_micros(payload_len: int, config: Config) -> int {
    spec_preamble_micros(config) + spec_payload_micros(payload_len, config)
}

/// Symbol airtimes lie between 256 µs and 524288 µs
pub proof fn lemma_symbol_micros_range(spreading_factor: SpreadingFactor, bandwidth: Bandwidth)
    ensures
        256 <= spec_symbol_micros(spreading_factor, bandwidth) <= 524288,
        spec_symbol_micros(spreading_factor, bandwidth) == spec_chip_micros(bandwidth) * spec_chip_count(
            spreading_factor,
        ),
{
    lemma_chip_count(spreading_factor);
    let c = spec_chip_count(spreading_factor);
    let m = spec_chip_micros(bandwidth);
    assert(256 <= m * c <= 524288) by (nonlinear_arith)
        requires
            128 <= c <= 4096,
            2 <= m <= 128,
    ;
}

/// The range of the rounded-up block count for the payload lengths the formula admits
proof fn lemma_payload_blocks_range(num: int, den: int)
    requires
        -40 <= num <= 0x7FFF_FF90,
        20 <= den <= 48,
    ensures
        -1 <= spec_ceildiv(num, den) <= 107_374_183,
{
    let n = num + den - 1;
    if n >= 0 {
        let q = n / den;
        assert(0 <= q && q * den <= n) by (nonlinear_arith)
            requires
                q == n / den,
                den > 0,
                n >= 0,
        ;
        assert(q <= 107_374_183) by (nonlinear_arith)
            requires
                q >= 0,
                q * den <= n,
                den >= 20,
                n <= 0x7FFF_FF90 + 47,
        ;
    } else {
        let q = (-n) / den;
        assert(0 <= q <= 1) by (nonlinear_arith)
            requires
                q == (-n) / den,
                den >= 20,
                0 < -n <= 21,
        ;
    }
}

/// Gets the airtime of the preamble
fn preamble_airtime(config: Config) -> (r: Duration)
    ensures
        r.spec_micros() == spec_preamble_micros(config),
        r.spec_micros() <= 65540 * 524288,
{
    proof {
        lemma_symbol_micros_range(config.spec_spreading_factor(), config.spec_bandwidth());
    }
    let preamble_len = config.preamble_len().as_u16() as u64 + 5;
    let symbol_airtime = symbol_airtime(config.spreading_factor(), config.bandwidth()).as_micros();
    assert(preamble_len * symbol_airtime <= 65540 * 524288) by (nonlinear_arith)
        requires
            preamble_len <= 65540,
            symbol_airtime <= 524288,
    ;
    Duration::from_micros(preamble_len * symbol_airtime)
}

/// Computes the airtime of a payload
fn payload_airtime(payload_len: usize, config: Config) -> (r: Duration)
    requires
        payload_len <= AIRTIME_MAX_PAYLOAD_LEN,
    ensures
        r.spec_micros() == spec_payload_micros(payload_len as int, config),
        r.spec_micros() <= 858_993_472 * 524288,
{
    let spreading_factor = config.spreading_factor();
    let bandwidth = config.bandwidth();
    proof {
        lemma_symbol_micros_range(spreading_factor, bandwidth);
        lemma_chip_count(spreading_factor);
    }
    let pl = payload_len as i32;
    let sf = spreading_factor.as_u8() as i32;
    let crc = config.crc_mode().as_u8() as i32;
    let ih = config.header_mode().as_u8() as i32;
    let de: i32 = if needs_ldo(spreading_factor, bandwidth) { 1 } else { 0 };
    let cr = config.coding_rate().as_u8() as i32;

    let numerator = (8 * pl) - (4 * sf) + 28 + (16 * crc) - (20 * ih);
    let denominator = 4 * (sf - (2 * de));
    assert(numerator == spec_payload_numerator(payload_len as int, config));
    assert(denominator == spec_payload_denominator(config));
    proof {
        lemma_payload_blocks_range(numerator as int, denominator as int);
    }
    let rounded = ceildiv(numerator, denominator);
    assert(-8 <= rounded * (cr + 4) <= 858_993_464) by (nonlinear_arith)
        requires
            -1 <= rounded <= 107_374_183,
            1 <= cr <= 4,
    ;
    let blocks = rounded * (cr + 4);
    let symbol_count: u64 = if blocks > 0 { blocks as u64 } else { 0 } + 8;
    let symbol_airtime = symbol_airtime(spreading_factor, bandwidth).as_micros();
    assert(symbol_count * symbol_airtime <= 858_993_472 * 524288) by (nonlinear_arith)
        requires
            symbol_count <= 858_993_472,
            symbol_airtime <= 524288,
    ;
    Duration::from_micros(symbol_count * symbol_airtime)
}

/// Computes the total airtime of a message
pub fn airtime(payload_len: usize, config: Config) -> (r: Duration)
    requires
        payload_len <= AIRTIME_MAX_PAYLOAD_LEN,
    ensures
        r.spec_micros() == spec_airtime_micros(payload_len as int, config),
{
    let preamble_airtime = preamble_airtime(config).as_micros();
    let payload_airtime = payload_airtime(payload_len, config).as_micros();
    Duration::from_micros(preamble_airtime + payload_airtime)
}

} // verus!
