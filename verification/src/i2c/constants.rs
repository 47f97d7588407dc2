//! Numbers of the sensor's register map.

pub mod addresses;
pub mod registers;
pub mod values;
