//! A register-level driver for RFM95 / SX1276-family LoRa transceivers, with the airtime arithmetic
//! the modem's timing depends on.
pub mod error;
pub mod gps;
pub mod lora;
pub mod radio;
pub mod rfm95;
