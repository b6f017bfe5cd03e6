//! The command encoder: which bus operations each command is made of, and
//! whether it addresses one device or all of them.
use vstd::prelude::*;
use one_wire_bus::Address;
use crate::bus::family_code_of;
use crate::commands::{CONVERT_TEMP, FAMILY_CODE, READ_SCRATCHPAD, WRITE_SCRATCHPAD};
use crate::eeprom::{recall_from_eeprom, recall_ops, save_ops, save_to_eeprom};
use crate::error::Ds18b20Error;
use crate::resolution::ResolutionAsync;
use crate::scratchpad::{config_bytes_of, encode_config};

verus! {

/// One exchange on the bus, in the order a command performs them. Whoever
/// drives the bus runs them one after another and stops at the first error.
#[derive(Clone, Copy, Debug, PartialEq, Eq)]
pub enum BusOp {
    /// A reset pulse.
    Reset,
    /// MATCH ROM with this address: only that device listens.
    MatchAddress(Address),
    /// SKIP ROM: every device on the bus listens.
    SkipAddress,
    /// Write one byte.
    WriteByte(u8),
    /// Read the nine scratchpad bytes.
    ReadScratchpad,
    /// Read a single bit.
    ReadBit,
    /// Wait this many microseconds.
    DelayMicros(u32),
}

/// Addresses one device, or all of them when there is no address.
pub open spec fn select_op(address: Option<Address>) -> BusOp {
    match address {
        Some(a) => BusOp::MatchAddress(a),
        None => BusOp::SkipAddress,
    }
}

/// Reset, address, then the command byte.
pub open spec fn command_ops(command: u8, address: Option<Address>) -> Seq<BusOp> {
    seq![BusOp::Reset, select_op(address), BusOp::WriteByte(command)]
}

/// The operations that read one device's scratchpad.
pub open spec fn read_scratchpad_ops(address: Address) -> Seq<BusOp> {
    command_ops(READ_SCRATCHPAD, Some(address)).push(BusOp::ReadScratchpad)
}

/// The operations that write a configuration to one device's scratchpad.
pub open spec fn set_config_ops(
    address: Address,
    alarm_temp_low: i8,
    alarm_temp_high: i8,
    resolution: ResolutionAsync,
) -> Seq<BusOp> {
    let b = config_bytes_of(alarm_temp_low, alarm_temp_high, resolution);
    command_ops(WRITE_SCRATCHPAD, Some(address)).add(
        seq![BusOp::WriteByte(b[0]), BusOp::WriteByte(b[1]), BusOp::WriteByte(b[2])],
    )
}

/// Sends a reset, then MATCH ROM with the address or SKIP ROM without one,
/// then the command byte.
pub fn send_command(command: u8, address: Option<Address>) -> (r: Vec<BusOp>)
    ensures
        r@ == command_ops(command, address),
{
    let mut ops: Vec<BusOp> = Vec::new();
    ops.push(BusOp::Reset);
    match address {
        Some(a) => ops.push(BusOp::MatchAddress(a)),
        None => ops.push(BusOp::SkipAddress),
    }
    ops.push(BusOp::WriteByte(command));
    assert(ops@ =~= command_ops(command, address));
    ops
}

/// Starts a temperature measurement on every device of the bus at once.
/// Nothing waits for it: wait for the slowest resolution in use before
/// reading any device.
pub fn start_simultaneous_temp_measurement() -> (r: Vec<BusOp>)
    ensures
        r@ == command_ops(CONVERT_TEMP, None),
{
    send_command(CONVERT_TEMP, None)
}

/// Copies every device's EEPROM configuration back into its scratchpad. The
/// completion poll follows these operations (see `RecallPoll`).
pub fn simultaneous_recall_from_eeprom() -> (r: Vec<BusOp>)
    ensures
        r@ == recall_ops(None),
{
    recall_from_eeprom(None)
}

/// Copies every device's scratchpad configuration into its EEPROM.
pub fn simultaneous_save_to_eeprom() -> (r: Vec<BusOp>)
    ensures
        r@ == save_ops(None),
{
    save_to_eeprom(None)
}

/// Reads the scratchpad of the device at `address`; the nine bytes go to
/// `parse_scratchpad`.
pub fn read_scratchpad(address: &Address) -> (r: Vec<BusOp>)
    ensures
        r@ == read_scratchpad_ops(*address),
{
    let mut ops = send_command(READ_SCRATCHPAD, Some(*address));
    ops.push(BusOp::ReadScratchpad);
    ops
}

/// A DS18B20 on the bus, known by its address.
pub struct Ds18b20Async {
    address: Address,
}

impl View for Ds18b20Async {
    type V = Address;

    closed spec fn view(&self) -> Address {
        self.address
    }
}

impl Ds18b20Async {
    /// Accepts the address only if its family code is the DS18B20's. No bus
    /// exchange takes place.
    pub fn new(address: Address) -> (r: Result<Ds18b20Async, Ds18b20Error>)
        ensures
            family_code_of(address.0) == FAMILY_CODE <==> r is Ok,
            r matches Ok(d) ==> d@ == address,
            r matches Err(e) ==> e == Ds18b20Error::FamilyCodeMismatch,
    {
        if address.family_code() == FAMILY_CODE {
            Ok(Ds18b20Async { address })
        } else {
            Err(Ds18b20Error::FamilyCodeMismatch)
        }
    }

    /// The device's address.
    pub fn address(&self) -> (r: &Address)
        ensures
            *r == self@,
    {
        &self.address
    }

    /// Starts a temperature measurement on this device only. Nothing waits
    /// for it: wait `max_measurement_time_millis` of the resolution in use
    /// before reading.
    pub fn start_temp_measurement(&self) -> (r: Vec<BusOp>)
        ensures
            r@ == command_ops(CONVERT_TEMP, Some(self@)),
    {
        send_command(CONVERT_TEMP, Some(self.address))
    }

    /// Reads this device's scratchpad; the nine bytes go to
    /// `parse_scratchpad`.
    pub fn read_data(&self) -> (r: Vec<BusOp>)
        ensures
            r@ == read_scratchpad_ops(self@),
    {
        read_scratchpad(&self.address)
    }

    /// Writes the alarm thresholds and the resolution to this device's
    /// scratchpad: high threshold, low threshold, configuration byte. Nothing
    /// is read back.
    pub fn set_config(&self, alarm_temp_low: i8, alarm_temp_high: i8, resolution: ResolutionAsync) -> (r:
        Vec<BusOp>)
        ensures
            r@ == set_config_ops(self@, alarm_temp_low, alarm_temp_high, resolution),
    {
        let mut ops = send_command(WRITE_SCRATCHPAD, Some(self.address));
        let bytes = encode_config(alarm_temp_low, alarm_temp_high, resolution);
        ops.push(BusOp::WriteByte(bytes[0]));
        ops.push(BusOp::WriteByte(bytes[1]));
        ops.push(BusOp::WriteByte(bytes[2]));
        assert(ops@ =~= set_config_ops(self@, alarm_temp_low, alarm_temp_high, resolution));
        ops
    }

    /// Copies this device's scratchpad configuration into its EEPROM.
    pub fn save_to_eeprom(&self) -> (r: Vec<BusOp>)
        ensures
            r@ == save_ops(Some(self@)),
    {
        save_to_eeprom(Some(self.address))
    }

    /// Copies this device's EEPROM configuration back into its scratchpad.
    /// The completion poll follows these operations (see `RecallPoll`).
    pub fn recall_from_eeprom(&self) -> (r: Vec<BusOp>)
        ensures
            r@ == recall_ops(Some(self@)),
    {
        recall_from_eeprom(Some(self.address))
    }
}

} // verus!
