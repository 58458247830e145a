//! The driver's error taxonomy
use vstd::prelude::*;

verus! {

/// Everything that can go wrong while talking to the modem
#[derive(Debug, Clone, Copy, PartialEq, Eq, Structural)]
pub enum Error {
    /// A bus transfer or a select/reset line failed
    CommunicationFailure,
    /// The chip reports a silicon revision this driver does not know
    UnsupportedSiliconRevision,
    /// A register holds a value that maps to no known parameter
    InvalidParameterValue,
    /// A payload to send is empty or larger than the FIFO
    InvalidInputLength,
    /// A receive timeout does not fit into the modem's symbol counter
    TimeoutTooLarge,
    /// The modem reported a receive timeout
    RxTimeout,
    /// The modem reported a payload CRC mismatch
    RxCrcError,
    /// A division by zero was requested
    DivideByZero,
}

impl Error {
    /// A short human-readable description of the error
    pub fn message(&self) -> &'static str {
        match self {
            Error::CommunicationFailure => "Communication with the modem failed",
            Error::UnsupportedSiliconRevision => "Unsupported silicon revision",
            Error::InvalidParameterValue => "Invalid or unsupported parameter value",
            Error::InvalidInputLength => "Invalid TX data length",
            Error::TimeoutTooLarge => "Effective timeout is too large",
            Error::RxTimeout => "RX timeout",
            Error::RxCrcError => "RX CRC error",
            Error::DivideByZero => "Cannot divide by zero",
        }
    }
}

} // verus!
