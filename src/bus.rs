//! What the library takes from the `one_wire_bus` crate.
use vstd::prelude::*;

verus! {

/// `one_wire_bus::Address`, a tuple struct around its public `u64`; its
/// field stays visible so that contracts can speak of the address's bits.
#[verifier::external_type_specification]
pub struct ExAddress(one_wire_bus::Address);

/// The family code of a 64-bit device address: its least significant byte.
pub open spec fn family_code_of(bits: u64) -> u8 {
    (bits % 256) as u8
}

/// Relies on `Address::family_code`, which returns byte 0 of the address's
/// little-endian bytes.
pub assume_specification[ one_wire_bus::Address::family_code ](a: &one_wire_bus::Address) -> (r: u8)
    ensures
        r == family_code_of(a.0),
;

/// The value that `one_wire_bus::crc::crc8` computes over a byte sequence.
pub uninterp spec fn crc8_of(data: Seq<u8>) -> u8;

/// Relies on `one_wire_bus::crc::check_crc8`, which succeeds exactly when
/// `crc8` of the data, check byte included, is zero.
#[verifier::external_body]
pub(crate) fn crc8_passes(data: &[u8]) -> (r: bool)
    ensures
        r == (crc8_of(data@) == 0),
{
    one_wire_bus::crc::check_crc8::<()>(data).is_ok()
}

/// Relies on `one_wire_bus::READ_SLOT_DURATION_MICROS`, the duration of one
/// bit read slot, which the crate defines as 70 microseconds.
#[verifier::external_body]
pub(crate) fn read_slot_duration_micros() -> (r: u16)
    ensures
        r == 70,
{
    one_wire_bus::READ_SLOT_DURATION_MICROS
}

} // verus!
