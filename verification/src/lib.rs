//! Protocol layer for Sensirion gas sensors on an I2C bus.

pub mod bus;
pub mod checksum;
pub mod debug_utils;
pub mod error;
pub mod scd4x;
pub mod sensirion;
pub mod sgp40;
pub mod wire;

pub use error::Error;
