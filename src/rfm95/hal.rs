//! The calls into `embedded-hal` that the driver makes: bus transfers, output lines and delays
//!
//! What the hardware answers is not known in advance, so these promise nothing about their outcome; the
//! driver's contracts say what holds for every answer.
use embedded_hal::delay::DelayNs;
use embedded_hal::digital::OutputPin;
use embedded_hal::spi::SpiBus;
use vstd::prelude::*;

verus! {

/// Relies on `embedded_hal::spi::SpiBus::transfer_in_place`: clocks out `command` and `payload` and hands
/// back the byte clocked in alongside `payload`, or reports that the transfer failed.
#[verifier::external_body]
pub(crate) fn spi_transfer<Bus: SpiBus>(bus: &mut Bus, command: u8, payload: u8) -> (r: Result<u8, ()>) {
    let mut words = [command, payload];
    match bus.transfer_in_place(&mut words) {
        Ok(()) => Ok(words[1]),
        Err(_) => Err(()),
    }
}

/// Relies on `embedded_hal::digital::OutputPin::set_low`: drives the line low, or reports a failure.
#[verifier::external_body]
pub(crate) fn pin_set_low<Pin: OutputPin>(pin: &mut Pin) -> (r: Result<(), ()>) {
    match pin.set_low() {
        Ok(()) => Ok(()),
        Err(_) => Err(()),
    }
}

/// Relies on `embedded_hal::digital::OutputPin::set_high`: drives the line high, or reports a failure.
#[verifier::external_body]
pub(crate) fn pin_set_high<Pin: OutputPin>(pin: &mut Pin) -> (r: Result<(), ()>) {
    match pin.set_high() {
        Ok(()) => Ok(()),
        Err(_) => Err(()),
    }
}

/// Relies on `embedded_hal::delay::DelayNs::delay_ms`: blocks for at least `ms` milliseconds.
#[verifier::external_body]
pub(crate) fn delay_ms<Timer: DelayNs>(timer: &mut Timer, ms: u32) {
    timer.delay_ms(ms)
}

} // verus!
