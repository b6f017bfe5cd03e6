//! Protocol layer of a driver for DS18B20 temperature sensors on a 1-Wire bus.
//!
//! The library decides what goes on the wire and what the answers mean: the
//! bus operations of each command, the decoding of the scratchpad, and the
//! completion poll of an EEPROM recall. Driving the pins is left to the caller.

pub mod bus;
pub mod commands;
pub mod device;
pub mod eeprom;
pub mod error;
pub mod resolution;
pub mod scratchpad;

pub use commands::{
    CONVERT_TEMP, COPY_SCRATCHPAD, FAMILY_CODE, READ_SCRATCHPAD, RECALL_EEPROM, WRITE_SCRATCHPAD,
};
pub use resolution::ResolutionAsync;
pub use device::{
    read_scratchpad, send_command, simultaneous_recall_from_eeprom, simultaneous_save_to_eeprom,
    start_simultaneous_temp_measurement, BusOp, Ds18b20Async,
};
pub use eeprom::{recall_from_eeprom, save_to_eeprom, RecallPoll, RecallStep, EEPROM_WRITE_MICROS};
pub use error::Ds18b20Error;
pub use scratchpad::{check_scratchpad, decode_scratchpad, encode_config, parse_scratchpad, SensorData};
