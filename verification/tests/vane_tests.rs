use weather_station::analog::{mcp_command, parse_adc_reading, raw_to_microvolts};
use weather_station::vane::{
    WindVane, WindVaneData, WindVanePayload, expected_microvolts_at, find_direction_by_voltage,
};
use weather_station::process::{DataPoint, DaytimeData};

#[test]
fn expected_ladder_voltages() {
    // V = 3.3 V * R / (R + 5100), in whole microvolts.
    assert_eq!(expected_microvolts_at(0), 2858267); // 33000 ohm
    assert_eq!(expected_microvolts_at(5), 392259); // 688 ohm, the lowest
    assert_eq!(expected_microvolts_at(12), 3165467); // 120000 ohm, the highest
}

#[test]
fn exact_voltage_resolves_its_position() {
    assert_eq!(find_direction_by_voltage(2858267), 0); // north position
    assert_eq!(find_direction_by_voltage(392259), 5 * 225);
    assert_eq!(find_direction_by_voltage(3165467), 12 * 225);
}

#[test]
fn tie_goes_to_the_lower_index() {
    // 1126022 uV lies exactly between position 6 (994520 uV) and
    // position 9 (1257524 uV); the lower index wins.
    let mid = (994520 + 1257524) / 2;
    assert_eq!(mid, 1126022);
    assert_eq!(find_direction_by_voltage(mid), 6 * 225);
    // One microvolt to either side is unambiguous.
    assert_eq!(find_direction_by_voltage(mid - 1), 6 * 225);
    assert_eq!(find_direction_by_voltage(mid + 1), 9 * 225);
}

#[test]
fn adc_command_frame() {
    assert_eq!(mcp_command(0), vec![1u8, 0x80, 0]);
    assert_eq!(mcp_command(1), vec![1u8, 0xA0, 0]);
    assert_eq!(mcp_command(3), vec![1u8, 0xE0, 0]);
}

#[test]
fn adc_reading_extraction() {
    let buf = vec![0u8, 3, 255];
    assert_eq!(parse_adc_reading(&buf, 3), 1023);
    let buf2 = vec![0u8, 0xFE, 0];
    assert_eq!(parse_adc_reading(&buf2, 3), 512);
    assert_eq!(raw_to_microvolts(1023), 3300000);
    assert_eq!(raw_to_microvolts(512), 1651612);
    assert_eq!(raw_to_microvolts(0), 0);
}

#[test]
fn compass_labels() {
    assert_eq!(WindVaneData::new(0, Some(1)).get_dir_as_string(), "N");
    assert_eq!(WindVaneData::new(225, Some(1)).get_dir_as_string(), "NNE");
    assert_eq!(WindVaneData::new(900, Some(1)).get_dir_as_string(), "E");
    assert_eq!(WindVaneData::new(1350, Some(1)).get_dir_as_string(), "SE");
    assert_eq!(WindVaneData::new(3375, Some(1)).get_dir_as_string(), "NNW");
    assert_eq!(WindVaneData::new(3599, Some(1)).get_dir_as_string(), "NNW");
}

#[test]
fn vane_reading_validity() {
    assert!(!WindVaneData::new(0, None).is_valid());
    assert!(WindVaneData::new(0, Some(2)).is_valid());
    assert_eq!(WindVaneData::new(450, Some(2)).get_direction(), 450);
}

#[test]
fn vane_driver_decodes_answers() {
    let mut vane = WindVane::new();
    // Full-scale answer: 3.3 V, nearest is position 12.
    let buf = vec![0u8, 3, 255];
    let p = vane.update_data(&buf, 3, 77);
    assert_eq!(vane.voltage_microvolts, 3300000);
    assert_eq!(vane.direction_tenths, 12 * 225);
    assert_eq!(p.data.direction_tenths, 12 * 225);
    assert_eq!(p.data.last_updated, Some(77));
}

#[test]
fn vane_payload_leaves_day_rollup_alone() {
    let mut point = DataPoint::new();
    let mut day = DaytimeData::new(9, None);
    let before = day;
    let p = WindVanePayload::new(1350, Some(4));
    p.update_data_fields(&mut point, &mut day);
    assert_eq!(point.get_directional_data().direction_tenths, 1350);
    assert_eq!(day, before);
}
