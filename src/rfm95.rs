//! RFM95 register map, bus connection and driver
pub mod connection;
pub(crate) mod hal;
pub mod driver;
pub mod registers;

use crate::lora::types::Frequency;
use vstd::prelude::*;

verus! {

/// The RFM95 FIFO size
pub const RFM95_FIFO_SIZE: usize = 0xFF;

/// Recommended SPI frequency
pub fn rfm95_spi_frequency() -> (r: Frequency)
    ensures
        r.spec_as_u32() == 10_000_000,
{
    Frequency::hz(10_000_000)
}

/// Recommended SPI baudrate
pub fn rfm95_spi_baudrate() -> (r: Frequency)
    ensures
        r.spec_as_u32() == 1_000_000,
{
    Frequency::hz(1_000_000)
}

} // verus!

pub use crate::rfm95::driver::Rfm95Driver;
