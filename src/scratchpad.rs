//! The nine-byte scratchpad: decoding what a device reports and encoding the
//! three bytes of configuration that can be written to it.
use vstd::prelude::*;
use crate::bus::{crc8_of, crc8_passes};
use crate::error::Ds18b20Error;
use crate::resolution::{config_register_of, divisor_of, resolution_of_register, ResolutionAsync};

verus! {

/// Everything that a scratchpad read yields.
///
/// The temperature is kept as the device reports it: `raw_temperature`
/// divided by the resolution's divisor gives degrees Celsius.
#[derive(Clone, Copy, Debug, PartialEq, Eq, Structural)]
pub struct SensorData {
    /// Two's-complement temperature register; 85 °C at power-on.
    pub raw_temperature: i16,
    /// The current resolution configuration.
    pub resolution: ResolutionAsync,
    /// If the last recorded temperature is lower than this, the sensor is in
    /// an alarm state.
    pub alarm_temp_low: i8,
    /// If the last recorded temperature is higher than this, the sensor is in
    /// an alarm state.
    pub alarm_temp_high: i8,
}

/// A byte read as a two's-complement signed value.
pub open spec fn i8_of_byte(b: u8) -> i8 {
    if b < 128 {
        b as i8
    } else {
        (b - 256) as i8
    }
}

/// The byte that holds a signed value in two's complement.
pub open spec fn byte_of_i8(v: i8) -> u8 {
    if v >= 0 {
        v as u8
    } else {
        (v + 256) as u8
    }
}

/// Two bytes, least significant first, read as a two's-complement value.
pub open spec fn i16_of_le_bytes(lo: u8, hi: u8) -> i16 {
    let u = lo + 256 * hi;
    if u < 32768 {
        u as i16
    } else {
        (u - 65536) as i16
    }
}

/// What a scratchpad's bytes hold, checksum aside: byte 4 must be one of the
/// four resolution encodings, which the protocol treats as a CRC failure
/// otherwise.
pub open spec fn scratchpad_contents(b: Seq<u8>) -> Result<SensorData, Ds18b20Error>
    recommends
        b.len() == 9,
{
    match resolution_of_register(b[4]) {
        Some(resolution) => Ok(
            SensorData {
                raw_temperature: i16_of_le_bytes(b[0], b[1]),
                resolution,
                alarm_temp_low: i8_of_byte(b[3]),
                alarm_temp_high: i8_of_byte(b[2]),
            },
        ),
        None => Err(Ds18b20Error::CrcMismatch),
    }
}

/// The outcome of reading a scratchpad: a failed CRC first, then its contents.
pub open spec fn parse_spec(b: Seq<u8>) -> Result<SensorData, Ds18b20Error> {
    if crc8_of(b) == 0 {
        scratchpad_contents(b)
    } else {
        Err(Ds18b20Error::CrcMismatch)
    }
}

/// The three writable scratchpad bytes, in the order they are sent: high
/// alarm threshold, low alarm threshold, configuration register.
pub open spec fn config_bytes_of(alarm_temp_low: i8, alarm_temp_high: i8, resolution: ResolutionAsync) -> Seq<u8> {
    seq![byte_of_i8(alarm_temp_high), byte_of_i8(alarm_temp_low), config_register_of(resolution)]
}

fn i8_from_byte(b: u8) -> (r: i8)
    ensures
        r == i8_of_byte(b),
{
    if b < 128 {
        b as i8
    } else {
        (b as i16 - 256) as i8
    }
}

fn byte_from_i8(v: i8) -> (r: u8)
    ensures
        r == byte_of_i8(v),
{
    if v >= 0 {
        v as u8
    } else {
        (v as i16 + 256) as u8
    }
}

/// Checks the scratchpad's CRC, byte 8 over bytes 0 to 7, and hands the
/// bytes back when it holds.
pub fn check_scratchpad(scratchpad: [u8; 9]) -> (r: Result<[u8; 9], Ds18b20Error>)
    ensures
        crc8_of(scratchpad@) == 0 ==> r == Ok::<[u8; 9], Ds18b20Error>(scratchpad),
        crc8_of(scratchpad@) != 0 ==> r == Err::<[u8; 9], Ds18b20Error>(Ds18b20Error::CrcMismatch),
{
    if crc8_passes(scratchpad.as_slice()) {
        Ok(scratchpad)
    } else {
        Err(Ds18b20Error::CrcMismatch)
    }
}

/// Decodes a scratchpad whose CRC has been checked: resolution from byte 4,
/// temperature from bytes 0 and 1 (little endian), thresholds from bytes 2
/// and 3.
pub fn decode_scratchpad(scratchpad: &[u8; 9]) -> (r: Result<SensorData, Ds18b20Error>)
    ensures
        r == scratchpad_contents(scratchpad@),
{
    let resolution = match ResolutionAsync::from_config_register(scratchpad[4]) {
        Some(resolution) => resolution,
        None => return Err(Ds18b20Error::CrcMismatch),
    };
    let lo = scratchpad[0];
    let hi = scratchpad[1];
    let u: u32 = lo as u32 + 256 * hi as u32;
    let raw_temperature: i16 = if u < 32768 {
        u as i16
    } else {
        (u as i32 - 65536) as i16
    };
    Ok(
        SensorData {
            raw_temperature,
            resolution,
            alarm_temp_low: i8_from_byte(scratchpad[3]),
            alarm_temp_high: i8_from_byte(scratchpad[2]),
        },
    )
}

/// Checks and decodes the nine bytes read from a device.
pub fn parse_scratchpad(scratchpad: &[u8; 9]) -> (r: Result<SensorData, Ds18b20Error>)
    ensures
        r == parse_spec(scratchpad@),
{
    match check_scratchpad(*scratchpad) {
        Ok(checked) => decode_scratchpad(&checked),
        Err(e) => Err(e),
    }
}

/// Encodes new alarm thresholds and a resolution as the three bytes that a
/// scratchpad write sends.
pub fn encode_config(alarm_temp_low: i8, alarm_temp_high: i8, resolution: ResolutionAsync) -> (r: [u8; 3])
    ensures
        r@ == config_bytes_of(alarm_temp_low, alarm_temp_high, resolution),
{
    let r = [byte_from_i8(alarm_temp_high), byte_from_i8(alarm_temp_low), resolution.to_config_register()];
    assert(r@ =~= config_bytes_of(alarm_temp_low, alarm_temp_high, resolution));
    r
}

impl SensorData {
    /// The temperature in sixteenths of a degree Celsius, which holds every
    /// resolution's reading exactly.
    pub fn temperature_sixteenths(&self) -> (r: i32)
        ensures
            r == self.raw_temperature as int * (16int / divisor_of(self.resolution) as int),
    {
        let divisor = self.resolution.divisor();
        assert(divisor == 2 || divisor == 4 || divisor == 8 || divisor == 16);
        let factor: i32 = 16 / divisor as i32;
        assert(1 <= factor <= 8);
        self.raw_temperature as i32 * factor
    }
}

/// The temperature read at a resolution of divisor `D` is the raw register
/// divided by `D`: in sixteenths of a degree, `raw * 16 / D`, with no
/// rounding.
pub proof fn lemma_resolution_scale(raw: i16, resolution: ResolutionAsync)
    ensures
        (raw as int * (16int / divisor_of(resolution) as int)) * divisor_of(resolution) as int
            == raw as int * 16,
{
    match resolution {
        ResolutionAsync::Bits9 => assert((raw as int * 8) * 2 == raw as int * 16),
        ResolutionAsync::Bits10 => assert((raw as int * 4) * 4 == raw as int * 16),
        ResolutionAsync::Bits11 => assert((raw as int * 2) * 8 == raw as int * 16),
        ResolutionAsync::Bits12 => assert((raw as int * 1) * 16 == raw as int * 16),
    }
}

/// Signed thresholds survive the trip through their scratchpad bytes.
pub proof fn lemma_threshold_round_trip(v: i8)
    ensures
        i8_of_byte(byte_of_i8(v)) == v,
{
}

/// A scratchpad whose bytes 2 to 4 were written from a configuration decodes
/// to that configuration, and its temperature to bytes 0 and 1.
pub proof fn lemma_config_round_trip(
    scratchpad: Seq<u8>,
    alarm_temp_low: i8,
    alarm_temp_high: i8,
    resolution: ResolutionAsync,
)
    requires
        scratchpad.len() == 9,
        scratchpad.subrange(2, 5) == config_bytes_of(alarm_temp_low, alarm_temp_high, resolution),
    ensures
        scratchpad_contents(scratchpad) == Ok::<SensorData, Ds18b20Error>(
            SensorData {
                raw_temperature: i16_of_le_bytes(scratchpad[0], scratchpad[1]),
                resolution,
                alarm_temp_low,
                alarm_temp_high,
            },
        ),
{
    assert(scratchpad[2] == scratchpad.subrange(2, 5)[0]);
    assert(scratchpad[3] == scratchpad.subrange(2, 5)[1]);
    assert(scratchpad[4] == scratchpad.subrange(2, 5)[2]);
    lemma_threshold_round_trip(alarm_temp_low);
    lemma_threshold_round_trip(alarm_temp_high);
}

/// A scratchpad that fails its CRC is never decoded, whatever it holds.
pub proof fn lemma_crc_failure_rejects(scratchpad: Seq<u8>)
    requires
        crc8_of(scratchpad) != 0,
    ensures
        parse_spec(scratchpad) == Err::<SensorData, Ds18b20Error>(Ds18b20Error::CrcMismatch),
{
}

/// A configuration byte outside the four encodings fails the read, CRC or
/// not: no resolution is ever made up.
pub proof fn lemma_invalid_config_rejects(scratchpad: Seq<u8>)
    requires
        scratchpad.len() == 9,
        resolution_of_register(scratchpad[4]) is None,
    ensures
        parse_spec(scratchpad) == Err::<SensorData, Ds18b20Error>(Ds18b20Error::CrcMismatch),
{
}

} // verus!
