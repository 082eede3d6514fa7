//! Pixel writers over the two transports, and the storage they share.

pub mod bus_dac;
pub mod sipo;
pub mod utils;
