//! Copying the configuration between scratchpad and EEPROM, and the bounded
//! poll that waits for a recall to finish.
use vstd::prelude::*;
use one_wire_bus::Address;
use crate::bus::read_slot_duration_micros;
use crate::commands::{COPY_SCRATCHPAD, RECALL_EEPROM};
use crate::device::{command_ops, send_command, BusOp};

verus! {

/// Worst-case time of an EEPROM write, in microseconds.
pub const EEPROM_WRITE_MICROS: u32 = 10000;

/// Whether an operation takes anything from the bus.
pub open spec fn reads_bus(op: BusOp) -> bool {
    op is ReadScratchpad || op is ReadBit
}

/// COPY SCRATCHPAD, then the full write time.
pub open spec fn save_ops(address: Option<Address>) -> Seq<BusOp> {
    command_ops(COPY_SCRATCHPAD, address).push(BusOp::DelayMicros(EEPROM_WRITE_MICROS))
}

/// RECALL E2; the completion poll comes after.
pub open spec fn recall_ops(address: Option<Address>) -> Seq<BusOp> {
    command_ops(RECALL_EEPROM, address)
}

/// The number of bit reads a recall may make: one more than the read slots
/// that fit, rounded up, in the time an EEPROM write may take.
pub open spec fn poll_limit(slot_micros: nat) -> nat
    recommends
        slot_micros > 0,
{
    ((EEPROM_WRITE_MICROS as int + slot_micros - 1) / (slot_micros as int)) as nat + 1
}

/// Copies the scratchpad configuration into EEPROM on one device, or on all
/// of them without an address, then waits the whole write time: the device
/// gives no sign of completion.
pub fn save_to_eeprom(address: Option<Address>) -> (r: Vec<BusOp>)
    ensures
        r@ == save_ops(address),
{
    let mut ops = send_command(COPY_SCRATCHPAD, address);
    ops.push(BusOp::DelayMicros(EEPROM_WRITE_MICROS));
    ops
}

/// Copies the EEPROM configuration back into the scratchpad on one device, or
/// on all of them without an address. A `RecallPoll` then waits for it.
pub fn recall_from_eeprom(address: Option<Address>) -> (r: Vec<BusOp>)
    ensures
        r@ == recall_ops(address),
{
    send_command(RECALL_EEPROM, address)
}

/// A save reads nothing from the bus and ends on the full write time, so
/// nothing the bus answers can end it early.
pub proof fn lemma_save_waits_full_delay(address: Option<Address>)
    ensures
        save_ops(address).last() == BusOp::DelayMicros(EEPROM_WRITE_MICROS),
        forall|i: int| 0 <= i < save_ops(address).len() ==> !reads_bus(#[trigger] save_ops(address)[i]),
{
    assert forall|i: int| 0 <= i < save_ops(address).len() implies !reads_bus(
        #[trigger] save_ops(address)[i],
    ) by {
        if i < 3 {
            assert(save_ops(address)[i] == command_ops(COPY_SCRATCHPAD, address)[i]);
        }
    }
}

/// What one bit read does to a recall poll: a 1 ends it; a 0 counts a read,
/// and ends it with a timeout once the limit is reached.
#[derive(Clone, Copy, Debug, PartialEq, Eq, Structural)]
pub enum RecallStep {
    /// The device is still busy: read another bit.
    ReadAgain,
    /// The device has finished the recall.
    Complete,
    /// The limit of reads was reached without a 1.
    TimedOut,
}

/// Reads made and outcome after one more bit, from `reads` reads made of
/// `max_reads`.
pub open spec fn poll_step(reads: nat, max_reads: nat, bit: bool) -> (nat, RecallStep) {
    if bit {
        (reads, RecallStep::Complete)
    } else if reads + 1 >= max_reads {
        (reads + 1, RecallStep::TimedOut)
    } else {
        (reads + 1, RecallStep::ReadAgain)
    }
}

/// How many bits a poll reads, from `reads` reads made, on a bus that only
/// ever answers 0.
pub open spec fn silent_reads(reads: nat, max_reads: nat) -> nat
    decreases max_reads - reads,
{
    if reads >= max_reads {
        0
    } else {
        let (next, step) = poll_step(reads, max_reads, false);
        if step == RecallStep::TimedOut {
            1
        } else {
            1 + silent_reads(next, max_reads)
        }
    }
}

/// The completion poll of an EEPROM recall: the device answers each bit read
/// with 0 while busy and 1 once done.
pub struct RecallPoll {
    reads: u32,
    max_reads: u32,
}

impl RecallPoll {
    /// Bits read so far.
    pub closed spec fn reads(&self) -> nat {
        self.reads as nat
    }

    /// Bits that may be read before the recall times out.
    pub closed spec fn max_reads(&self) -> nat {
        self.max_reads as nat
    }

    /// The poll has not ended yet.
    pub open spec fn is_polling(&self) -> bool {
        self.reads() < self.max_reads()
    }

    /// A poll for a bus whose bit reads take `slot_micros` each.
    pub fn with_slot_duration(slot_micros: u16) -> (r: RecallPoll)
        requires
            slot_micros > 0,
        ensures
            r.reads() == 0,
            r.max_reads() == poll_limit(slot_micros as nat),
            r.is_polling(),
    {
        let slot: u32 = slot_micros as u32;
        let slots: u32 = (EEPROM_WRITE_MICROS + slot - 1) / slot;
        assert(slots as int <= EEPROM_WRITE_MICROS as int + slot as int - 1) by (nonlinear_arith)
            requires
                slot > 0,
                slots as int == (EEPROM_WRITE_MICROS as int + slot as int - 1) / (slot as int),
        ;
        RecallPoll { reads: 0, max_reads: slots + 1 }
    }

    /// A poll for the bus's own read slot duration.
    pub fn new() -> (r: RecallPoll)
        ensures
            r.reads() == 0,
            r.max_reads() == poll_limit(70),
            r.is_polling(),
    {
        RecallPoll::with_slot_duration(read_slot_duration_micros())
    }

    /// Takes the bit just read and says what comes next.
    pub fn step(&mut self, bit: bool) -> (r: RecallStep)
        requires
            old(self).is_polling(),
        ensures
            (final(self).reads(), r) == poll_step(old(self).reads(), old(self).max_reads(), bit),
            final(self).max_reads() == old(self).max_reads(),
            r == RecallStep::ReadAgain ==> final(self).is_polling(),
    {
        if bit {
            RecallStep::Complete
        } else {
            self.reads = self.reads + 1;
            if self.reads >= self.max_reads {
                RecallStep::TimedOut
            } else {
                RecallStep::ReadAgain
            }
        }
    }
}

/// On a bus that never answers 1, a poll ends with a timeout after exactly
/// as many reads as its limit, no more and no fewer.
pub proof fn lemma_silent_bus_times_out(slot_micros: nat)
    requires
        slot_micros > 0,
    ensures
        silent_reads(0, poll_limit(slot_micros)) == poll_limit(slot_micros),
{
    lemma_silent_reads_remaining(0, poll_limit(slot_micros));
}

proof fn lemma_silent_reads_remaining(reads: nat, max_reads: nat)
    requires
        reads <= max_reads,
    ensures
        silent_reads(reads, max_reads) == max_reads - reads,
    decreases max_reads - reads,
{
    if reads < max_reads && reads + 1 < max_reads {
        lemma_silent_reads_remaining(reads + 1, max_reads);
    }
}

} // verus!
