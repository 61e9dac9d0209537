//! The board logic of the Signpost controller (a SAM4L "Storm" module): where
//! process images lie in flash, which driver answers which system-call number,
//! how the pins are set up at reset, what sits on the I2C bus, and the FRAM
//! test client.

pub mod board;
pub mod driver_table;
pub mod fram_test;
pub mod pins;
pub mod process_loading;
