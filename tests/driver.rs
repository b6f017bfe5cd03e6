use ds18b20::{
    check_scratchpad, decode_scratchpad, encode_config, parse_scratchpad, read_scratchpad, recall_from_eeprom,
    save_to_eeprom, send_command, simultaneous_recall_from_eeprom, simultaneous_save_to_eeprom,
    start_simultaneous_temp_measurement, BusOp, Ds18b20Async, Ds18b20Error, RecallPoll, RecallStep,
    ResolutionAsync, SensorData, CONVERT_TEMP, COPY_SCRATCHPAD, FAMILY_CODE, READ_SCRATCHPAD, RECALL_EEPROM,
    WRITE_SCRATCHPAD,
};
use one_wire_bus::crc::crc8;
use one_wire_bus::Address;

const SENSOR: Address = Address(0x5A00_0000_1234_5628);

/// A scratchpad with the given temperature and configuration bytes and a
/// correct check byte.
fn scratchpad(raw: [u8; 2], config: [u8; 3]) -> [u8; 9] {
    let mut b = [raw[0], raw[1], config[0], config[1], config[2], 0xFF, 0x0C, 0x10, 0];
    b[8] = crc8(&b[..8]);
    b
}

fn celsius(d: &SensorData) -> f32 {
    d.raw_temperature as f32 / d.resolution.divisor() as f32
}

#[test]
fn construction_accepts_only_the_family_code() {
    let d = Ds18b20Async::new(SENSOR).unwrap();
    assert_eq!(*d.address(), SENSOR);
    for low in 0u64..256 {
        let a = Address(0xABCD_0000_0000_0000 | low);
        let r = Ds18b20Async::new(a);
        if low == FAMILY_CODE as u64 {
            assert!(r.is_ok());
        } else {
            assert!(matches!(r, Err(Ds18b20Error::FamilyCodeMismatch)));
        }
    }
    assert!(matches!(Ds18b20Async::new(Address(0x28_00)), Err(Ds18b20Error::FamilyCodeMismatch)));
}

#[test]
fn decode_round_trip() {
    let config = encode_config(-10, 25, ResolutionAsync::Bits12);
    assert_eq!(config, [25, 0xF6, 0x7F]);
    let block = scratchpad(400u16.to_le_bytes(), config);
    let d = parse_scratchpad(&block).unwrap();
    assert_eq!(celsius(&d), 25.0);
    assert_eq!(d.temperature_sixteenths(), 400);
    assert_eq!(d.alarm_temp_high, 25);
    assert_eq!(d.alarm_temp_low, -10);
    assert_eq!(d.resolution, ResolutionAsync::Bits12);
}

#[test]
fn resolution_scale_law() {
    let cases = [
        (ResolutionAsync::Bits9, 2.0f32, 8),
        (ResolutionAsync::Bits10, 4.0, 4),
        (ResolutionAsync::Bits11, 8.0, 2),
        (ResolutionAsync::Bits12, 16.0, 1),
    ];
    for (res, divisor, factor) in cases {
        for raw in [0i16, 1, 51, 400, 1360, -1, -162, i16::MAX, i16::MIN] {
            let block = scratchpad(raw.to_le_bytes(), encode_config(0, 0, res));
            let d = parse_scratchpad(&block).unwrap();
            assert_eq!(d.raw_temperature, raw);
            assert_eq!(celsius(&d), raw as f32 / divisor);
            assert_eq!(d.temperature_sixteenths(), raw as i32 * factor);
        }
    }
    let d = parse_scratchpad(&scratchpad([51, 0], [0, 0, 0x1F])).unwrap();
    assert_eq!(celsius(&d), 25.5);
}

#[test]
fn negative_and_power_on_temperatures() {
    let d = parse_scratchpad(&scratchpad([0x5E, 0xFF], [0, 0, 0x7F])).unwrap();
    assert_eq!(d.raw_temperature, -162);
    assert_eq!(celsius(&d), -10.125);
    let d = parse_scratchpad(&scratchpad([0x50, 0x05], [75, 70, 0x7F])).unwrap();
    assert_eq!(celsius(&d), 85.0);
    assert_eq!(d.alarm_temp_high, 75);
    assert_eq!(d.alarm_temp_low, 70);
    let d = parse_scratchpad(&scratchpad([0x90, 0xFC], [0x80, 0xFF, 0x5F])).unwrap();
    assert_eq!(celsius(&d), -110.0);
    assert_eq!(d.alarm_temp_high, -128);
    assert_eq!(d.alarm_temp_low, -1);
}

#[test]
fn checksum_rejection() {
    let block = scratchpad(400u16.to_le_bytes(), encode_config(-10, 25, ResolutionAsync::Bits12));
    assert_eq!(check_scratchpad(block), Ok(block));
    for byte in 0..9 {
        for bit in 0..8 {
            let mut bad = block;
            bad[byte] ^= 1 << bit;
            assert_eq!(check_scratchpad(bad), Err(Ds18b20Error::CrcMismatch));
            assert!(matches!(parse_scratchpad(&bad), Err(Ds18b20Error::CrcMismatch)));
        }
    }
}

#[test]
fn known_device_scratchpad() {
    let block = [99, 1, 75, 70, 127, 255, 13, 16, 21];
    let d = parse_scratchpad(&block).unwrap();
    assert_eq!(d.raw_temperature, 355);
    assert_eq!(celsius(&d), 22.1875);
    assert_eq!(d.alarm_temp_high, 75);
    assert_eq!(d.alarm_temp_low, 70);
    assert_eq!(d.resolution, ResolutionAsync::Bits12);
}

#[test]
fn invalid_resolution_byte() {
    for config in [0x00u8, 0x1E, 0x20, 0x7E, 0xFF] {
        let block = scratchpad([0x90, 0x01], [25, 0xF6, config]);
        assert_eq!(check_scratchpad(block), Ok(block));
        assert!(matches!(parse_scratchpad(&block), Err(Ds18b20Error::CrcMismatch)));
        assert!(matches!(decode_scratchpad(&block), Err(Ds18b20Error::CrcMismatch)));
    }
}

#[test]
fn decode_ignores_check_byte() {
    let mut block = scratchpad([0x90, 0x01], [25, 0xF6, 0x3F]);
    block[8] ^= 0x55;
    let d = decode_scratchpad(&block).unwrap();
    assert_eq!(d.resolution, ResolutionAsync::Bits10);
    assert_eq!(celsius(&d), 100.0);
}

#[test]
fn reload_timeout() {
    let mut poll = RecallPoll::new();
    let mut reads = 0u32;
    loop {
        reads += 1;
        match poll.step(false) {
            RecallStep::ReadAgain => assert!(reads < 1000),
            RecallStep::TimedOut => break,
            RecallStep::Complete => panic!("a silent bus completed a recall"),
        }
    }
    assert_eq!(reads, 10000u32.div_ceil(70) + 1);
    assert_eq!(reads, 144);

    let mut poll = RecallPoll::with_slot_duration(100);
    let mut reads = 0u32;
    while poll.step(false) == RecallStep::ReadAgain {
        reads += 1;
    }
    assert_eq!(reads + 1, 101);
}

#[test]
fn reload_completes_on_a_one_bit() {
    let mut poll = RecallPoll::new();
    for _ in 0..10 {
        assert_eq!(poll.step(false), RecallStep::ReadAgain);
    }
    assert_eq!(poll.step(true), RecallStep::Complete);

    let mut poll = RecallPoll::with_slot_duration(5000);
    assert_eq!(poll.step(false), RecallStep::ReadAgain);
    assert_eq!(poll.step(false), RecallStep::ReadAgain);
    assert_eq!(poll.step(false), RecallStep::TimedOut);
}

#[test]
fn persist_waits_full_delay() {
    let d = Ds18b20Async::new(SENSOR).unwrap();
    for ops in [d.save_to_eeprom(), simultaneous_save_to_eeprom(), save_to_eeprom(None)] {
        assert_eq!(ops.last(), Some(&BusOp::DelayMicros(10000)));
        assert!(ops.iter().all(|op| !matches!(op, BusOp::ReadBit | BusOp::ReadScratchpad)));
    }
    assert_eq!(
        d.save_to_eeprom(),
        vec![BusOp::Reset, BusOp::MatchAddress(SENSOR), BusOp::WriteByte(COPY_SCRATCHPAD), BusOp::DelayMicros(10000)]
    );
}

#[test]
fn unicast_commands() {
    let d = Ds18b20Async::new(SENSOR).unwrap();
    let m = BusOp::MatchAddress(SENSOR);
    assert_eq!(d.start_temp_measurement(), vec![BusOp::Reset, m, BusOp::WriteByte(0x44)]);
    assert_eq!(d.read_data(), vec![BusOp::Reset, m, BusOp::WriteByte(0xBE), BusOp::ReadScratchpad]);
    assert_eq!(read_scratchpad(&SENSOR), d.read_data());
    assert_eq!(d.recall_from_eeprom(), vec![BusOp::Reset, m, BusOp::WriteByte(0xB8)]);
    assert_eq!(
        d.set_config(-10, 25, ResolutionAsync::Bits11),
        vec![
            BusOp::Reset,
            m,
            BusOp::WriteByte(WRITE_SCRATCHPAD),
            BusOp::WriteByte(25),
            BusOp::WriteByte(0xF6),
            BusOp::WriteByte(0x5F),
        ]
    );
}

#[test]
fn broadcast_commands() {
    assert_eq!(
        start_simultaneous_temp_measurement(),
        vec![BusOp::Reset, BusOp::SkipAddress, BusOp::WriteByte(CONVERT_TEMP)]
    );
    assert_eq!(
        simultaneous_recall_from_eeprom(),
        vec![BusOp::Reset, BusOp::SkipAddress, BusOp::WriteByte(RECALL_EEPROM)]
    );
    assert_eq!(recall_from_eeprom(None), simultaneous_recall_from_eeprom());
    assert_eq!(
        simultaneous_save_to_eeprom(),
        vec![BusOp::Reset, BusOp::SkipAddress, BusOp::WriteByte(COPY_SCRATCHPAD), BusOp::DelayMicros(10000)]
    );
    assert_eq!(
        send_command(READ_SCRATCHPAD, Some(SENSOR)),
        vec![BusOp::Reset, BusOp::MatchAddress(SENSOR), BusOp::WriteByte(READ_SCRATCHPAD)]
    );
}

#[test]
fn resolution_registers_and_times() {
    let all = [
        (ResolutionAsync::Bits9, 0x1Fu8, 94u32, 2u16),
        (ResolutionAsync::Bits10, 0x3F, 188, 4),
        (ResolutionAsync::Bits11, 0x5F, 375, 8),
        (ResolutionAsync::Bits12, 0x7F, 750, 16),
    ];
    for (res, reg, ms, div) in all {
        assert_eq!(res.to_config_register(), reg);
        assert_eq!(ResolutionAsync::from_config_register(reg), Some(res));
        assert_eq!(res.max_measurement_time_millis(), ms);
        assert_eq!(res.divisor(), div);
    }
    for b in 0u8..=255 {
        if ![0x1F, 0x3F, 0x5F, 0x7F].contains(&b) {
            assert_eq!(ResolutionAsync::from_config_register(b), None);
        }
    }
}

#[test]
fn config_encoding_bytes() {
    assert_eq!(encode_config(0, 0, ResolutionAsync::Bits9), [0, 0, 0x1F]);
    assert_eq!(encode_config(-128, 127, ResolutionAsync::Bits10), [127, 0x80, 0x3F]);
    assert_eq!(encode_config(-1, -55, ResolutionAsync::Bits12), [0xC9, 0xFF, 0x7F]);
}
