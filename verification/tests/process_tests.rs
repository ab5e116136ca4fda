use weather_station::anemometer::AnemometerPayload;
use weather_station::dht::DHTPayload;
use weather_station::events::{Event, EventType};
use weather_station::process::{
    DataManager, DataPoint, DaytimeData, PageContent, Payload,
};
use weather_station::rain::RainMeter;

#[test]
fn first_wind_reading_sets_min_and_max() {
    let mut day = DaytimeData::new(0, None);
    assert_eq!(day.wind_min, None);
    day.update_wind(5000);
    assert_eq!(day.wind_min, Some(5000));
    assert_eq!(day.wind_max, 5000);
}

#[test]
fn zero_is_a_legitimate_first_reading() {
    let mut day = DaytimeData::new(0, None);
    day.update_wind(0);
    assert_eq!(day.wind_min, Some(0));
    assert_eq!(day.wind_max, 0);
}

#[test]
fn min_only_drops_max_only_rises() {
    let mut day = DaytimeData::new(0, None);
    day.update_wind(5000);
    day.update_wind(7000);
    assert_eq!(day.wind_min, Some(5000));
    assert_eq!(day.wind_max, 7000);
    day.update_wind(3000);
    assert_eq!(day.wind_min, Some(3000));
    assert_eq!(day.wind_max, 7000);
    day.update_wind(3000); // equal reading moves neither extreme
    assert_eq!(day.wind_min, Some(3000));
    assert_eq!(day.wind_max, 7000);
}

#[test]
fn rollover_zeroes_and_references_the_closed_day() {
    let mut m = DataManager::new(100, true);
    m.apply_payload(Payload::Anemometer(AnemometerPayload::new(2000, Some(10))));
    let mut rain = RainMeter::new(0);
    rain.increment_counter();
    let p = rain.update_data(1000);
    m.apply_payload(Payload::Rain(p));
    assert_eq!(m.current_data.rain_total, 1);

    let closed = m.handle_event(Event::new(EventType::MidnightRefresh), 101);
    let closed = closed.expect("rollover must hand out the closed day");
    assert_eq!(closed.date, 100);
    assert_eq!(closed.rain_total, 1);
    assert_eq!(closed.wind_min, Some(2000));
    assert_eq!(closed.wind_max, 2000);

    assert_eq!(m.current_data.date, 101);
    assert_eq!(m.current_data.prev_date, Some(100));
    assert_eq!(m.current_data.rain_total, 0);
    assert_eq!(m.current_data.wind_min, None);
    assert_eq!(m.current_data.wind_max, 0);

    // A payload arriving after the rollover lands in the new day; the
    // closed rollup is a value and stays exactly as handed out.
    let closed_copy = closed;
    let mut rain2 = RainMeter::new(2000);
    rain2.increment_counter();
    rain2.increment_counter();
    let p2 = rain2.update_data(3000);
    m.apply_payload(Payload::Rain(p2));
    assert_eq!(m.current_data.rain_total, 2);
    assert_eq!(closed, closed_copy);
    assert_eq!(closed.rain_total, 1);
}

#[test]
fn other_events_do_not_touch_the_aggregate() {
    let mut m = DataManager::new(5, false);
    let before_point = m.data;
    let before_day = m.current_data;
    assert_eq!(m.handle_event(Event::new(EventType::UpdateWind), 5), None);
    assert_eq!(m.handle_event(Event::new(EventType::Exit), 5), None);
    assert_eq!(m.data, before_point);
    assert_eq!(m.current_data, before_day);
}

#[test]
fn three_rain_ticks_one_second() {
    // Three tick increments, then one sample a second later: the payload
    // carries 3.000 ticks/s and the day total grows by exactly 3.
    let mut meter = RainMeter::new(0);
    meter.increment_counter();
    meter.increment_counter();
    meter.increment_counter();
    let payload = meter.update_data(1000);
    assert_eq!(payload.data.ticks_per_sec_milli, 3000);

    let mut m = DataManager::new(0, false);
    let before = m.current_data.rain_total;
    m.apply_payload(Payload::Rain(payload));
    assert_eq!(m.current_data.rain_total, before + 3);
    assert_eq!(m.data.rain_data.ticks_per_sec_milli, 3000);
}

#[test]
fn failed_decode_produces_no_payload_and_leaves_the_snapshot() {
    let frame = vec![1u8, 2, 3, 4, 99];
    let mut m = DataManager::new(0, false);
    let before = m.data;
    if let Ok((h, t)) = weather_station::dht::decode_bytes(&frame) {
        m.apply_payload(Payload::Dht(DHTPayload::new(t, h, Some(1))));
    }
    assert_eq!(m.data, before);
}

#[test]
fn lcd_cadence_rotates_pages() {
    let mut m = DataManager::new(0, false);
    // The counter starts at the cadence so the display refreshes at once.
    assert_eq!(m.lcd_step(), Some(0));
    for _ in 0..5 {
        assert_eq!(m.lcd_step(), None);
    }
    assert_eq!(m.lcd_step(), Some(1));
    m.lcd_loop = 5;
    m.update_lcd = 5;
    assert_eq!(m.lcd_step(), Some(5));
    assert_eq!(m.lcd_loop, 0);
}

#[test]
fn ping_cadence() {
    let mut m = DataManager::new(0, false);
    for _ in 0..30 {
        assert!(!m.ping_step());
    }
    assert!(m.ping_step());
    assert_eq!(m.ping_loop, 0);
    m.record_ping_result(true);
    assert!(m.has_internet_connection);
}

#[test]
fn slow_steps_charge_the_cadence_counters() {
    let mut m = DataManager::new(0, false);
    m.update_lcd = 0;
    m.ping_loop = 0;
    assert_eq!(m.absorb_delay(500), 500);
    assert_eq!(m.update_lcd, 0);
    assert_eq!(m.absorb_delay(2500), 0);
    assert_eq!(m.update_lcd, 2);
    assert_eq!(m.ping_loop, 2);
}

#[test]
fn sleep_compensates_time_already_spent() {
    assert_eq!(DataManager::sleep_budget(0), 990);
    assert_eq!(DataManager::sleep_budget(240), 750);
    assert_eq!(DataManager::sleep_budget(990), 0);
    assert_eq!(DataManager::sleep_budget(1500), 0);
}

#[test]
fn pages_fall_back_to_unavailable() {
    let m = DataManager::new(0, false);
    assert_eq!(m.lcd_page_content(0), PageContent::Clock);
    assert_eq!(m.lcd_page_content(1), PageContent::Unavailable);
    assert_eq!(m.lcd_page_content(2), PageContent::Unavailable);
    assert_eq!(m.lcd_page_content(3), PageContent::Unavailable);
    assert_eq!(m.lcd_page_content(4), PageContent::Unavailable);
    assert_eq!(m.lcd_page_content(5), PageContent::SystemHealth);
    assert_eq!(m.lcd_page_content(6), PageContent::Blank);
    assert_eq!(m.lcd_page_content(-1), PageContent::Blank);
}

#[test]
fn valid_pages_carry_the_converted_values() {
    let mut m = DataManager::new(0, false);
    m.apply_payload(Payload::Dht(DHTPayload::new(250, 500, Some(1))));
    assert_eq!(
        m.lcd_page_content(1),
        PageContent::TempHumidity { temp_f_tenths: 770, temp_c_tenths: 250, humidity_tenths: 500 }
    );
    m.apply_payload(Payload::Anemometer(AnemometerPayload::new(3000, Some(2))));
    assert_eq!(
        m.lcd_page_content(3),
        PageContent::WindMinMax { min_mph_milli: Some(2238), max_mph_milli: 2238 }
    );
}

#[test]
fn snapshot_updates_are_disjoint() {
    let mut p = DataPoint::new();
    assert!(!p.get_temp_data().is_valid());
    assert!(!p.get_anemometer_data().is_valid());
    assert!(!p.get_directional_data().is_valid());
    assert!(!p.get_rain_data().is_valid());
    p.update_dht(weather_station::dht::DHTData::new(1, 2, Some(3)));
    assert!(p.get_temp_data().is_valid());
    assert!(!p.get_rain_data().is_valid());
}

#[test]
fn day_totals_convert_lazily() {
    let mut day = DaytimeData::new(0, None);
    day.add_rain(100);
    assert_eq!(day.get_rain_total_cm(), 35790);
    assert_eq!(day.get_rain_total_in(), 14090);
    assert_eq!(day.get_wind_min_mph(), None);
    day.update_wind(1000);
    assert_eq!(day.get_wind_min_mph(), Some(746));
    assert_eq!(day.get_wind_max_mph(), 746);
    assert_eq!(day.get_current_date(), 0);
}
