use vstd::prelude::*;

verus! {

/// Failures that the protocol layer itself detects. Errors of the bus
/// transport are the caller's and pass through it unchanged.
#[derive(Clone, Copy, Debug, PartialEq, Eq, Structural)]
pub enum Ds18b20Error {
    /// The address does not belong to a DS18B20.
    FamilyCodeMismatch,
    /// The scratchpad failed its CRC, or its configuration byte is none of
    /// the four resolution encodings.
    CrcMismatch,
    /// An EEPROM recall did not report completion within its poll bound.
    Timeout,
}

} // verus!
