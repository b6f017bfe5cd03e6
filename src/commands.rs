use vstd::prelude::*;

verus! {

/// Family code that every DS18B20 address carries in its low byte.
pub const FAMILY_CODE: u8 = 0x28;

/// Starts a temperature conversion.
pub const CONVERT_TEMP: u8 = 0x44;

/// Writes the alarm thresholds and the configuration register.
pub const WRITE_SCRATCHPAD: u8 = 0x4E;

/// Reads the nine bytes of the scratchpad.
pub const READ_SCRATCHPAD: u8 = 0xBE;

/// Copies the scratchpad's configuration into EEPROM.
pub const COPY_SCRATCHPAD: u8 = 0x48;

/// Copies the EEPROM's configuration back into the scratchpad.
pub const RECALL_EEPROM: u8 = 0xB8;

} // verus!
