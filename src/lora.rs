//! LoRa modem parameters, configuration and airtime arithmetic
pub mod airtime;
pub mod config;
pub mod types;
