use weather_station::dht::{DHT, DHTData, DHTPayload, DHTSelfTest, DHTState, assemble_bytes, decode_bytes};
use weather_station::process::{DataPoint, DaytimeData};

#[test]
fn decode_valid_frame() {
    let frame = vec![1u8, 2, 3, 4, 10];
    let r = decode_bytes(&frame);
    assert_eq!(r, Ok((258, 772)));
}

#[test]
fn decode_typical_reading() {
    // 60.0 % humidity, 28.0 C, checksum 2 + 88 + 1 + 24
    let frame = vec![0x02u8, 0x58, 0x01, 0x18, 115];
    let r = decode_bytes(&frame);
    assert_eq!(r, Ok((600, 280)));
}

#[test]
fn decode_high_bit_reads_negative() {
    let frame = vec![0x80u8, 0, 0, 0, 0x80];
    let r = decode_bytes(&frame);
    assert_eq!(r, Ok((-32768, 0)));
}

#[test]
fn decode_checksum_mismatch() {
    let frame = vec![1u8, 2, 3, 4, 11];
    assert_eq!(decode_bytes(&frame), Err(DHTState::ErrorChecksum));
}

#[test]
fn decode_overflowing_sum_fails_even_when_matching_mod_256() {
    // 255 + 1 + 0 + 0 = 256; 256 mod 256 == 0 == checksum byte, yet the sum
    // does not fit in one byte, so the frame is rejected.
    let frame = vec![255u8, 1, 0, 0, 0];
    assert_eq!(decode_bytes(&frame), Err(DHTState::ErrorChecksum));
}

#[test]
fn assemble_msb_first() {
    let mut bits = vec![false; 40];
    bits[0] = true; // bit 7 of byte 0
    bits[7] = true; // bit 0 of byte 0
    bits[8] = true; // bit 7 of byte 1
    bits[39] = true; // bit 0 of byte 4
    let data = assemble_bytes(&bits);
    assert_eq!(data, vec![0x81u8, 0x80, 0x00, 0x00, 0x01]);
}

#[test]
fn assemble_all_ones() {
    let bits = vec![true; 40];
    let data = assemble_bytes(&bits);
    assert_eq!(data, vec![0xFFu8, 0xFF, 0xFF, 0xFF, 0xFF]);
}

#[test]
fn state_codes_round_trip() {
    assert_eq!(DHTState::get_state_from_code(0), DHTState::Okay);
    assert_eq!(DHTState::get_state_from_code(-1), DHTState::ErrorChecksum);
    assert_eq!(DHTState::get_state_from_code(-2), DHTState::ErrorTimeout);
    assert_eq!(DHTState::get_state_from_code(-999), DHTState::InvalidValue);
    assert_eq!(DHTState::get_state_from_code(42), DHTState::InvalidValue);
    assert_eq!(DHTState::Okay.get_code(), 0);
    assert_eq!(DHTState::ErrorChecksum.get_code(), -1);
    assert_eq!(DHTState::ErrorTimeout.get_code(), -2);
    assert_eq!(DHTState::InvalidValue.get_code(), -999);
}

#[test]
fn state_strings() {
    assert_eq!(DHTState::get_state_str(DHTState::Okay), "Ok");
    assert_eq!(DHTState::get_state_str(DHTState::ErrorChecksum), "Checksum");
    assert_eq!(DHTState::get_state_str(DHTState::ErrorTimeout), "Timeout");
    assert_eq!(DHTState::get_state_str(DHTState::InvalidValue), "Invalid Value");
}

#[test]
fn fahrenheit_conversion() {
    let d = DHTData::new(250, 500, Some(1));
    assert_eq!(d.get_temp_farenheit(), 770); // 25.0 C -> 77.0 F
    let cold = DHTData::new(-100, 500, Some(1));
    assert_eq!(cold.get_temp_farenheit(), 140); // -10.0 C -> 14.0 F
    let zero = DHTData::new(0, 500, Some(1));
    assert_eq!(zero.get_temp_farenheit(), 320);
}

#[test]
fn reading_validity_is_the_timestamp() {
    let never = DHTData::new(0, 0, None);
    assert!(!never.is_valid());
    let once = DHTData::new(0, 0, Some(5));
    assert!(once.is_valid());
    assert_eq!(once.get_last_updated(), Some(5));
    assert_eq!(once.get_temp_celsius(), 0);
    assert_eq!(once.get_humidity(), 0);
}

#[test]
fn dht_payload_updates_snapshot_only() {
    let mut point = DataPoint::new();
    let mut day = DaytimeData::new(3, None);
    let day_before = day;
    let p = DHTPayload::new(215, 489, Some(900));
    p.update_data_fields(&mut point, &mut day);
    assert_eq!(point.get_temp_data().temperature_tenths, 215);
    assert_eq!(point.get_temp_data().humidity_tenths, 489);
    assert_eq!(point.get_temp_data().last_updated, Some(900));
    assert_eq!(day, day_before);
}

#[test]
fn fresh_driver_has_no_reading() {
    let d = DHT::new();
    assert_eq!(d.last_update, None);
    assert_eq!(d.get_data().last_updated, None);
}

#[test]
fn self_test_counts_and_finishes() {
    let mut t = DHTSelfTest::new(3);
    assert!(!t.record(true));
    assert!(!t.record(false));
    assert!(t.record(true));
    assert_eq!(t.success_counter, 2);
    assert_eq!(t.error_counter, 1);
}
