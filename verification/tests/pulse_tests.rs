use weather_station::anemometer::{Anemometer, AnemometerData, AnemometerPayload};
use weather_station::button::Button;
use weather_station::process::{DataPoint, DaytimeData};
use weather_station::rain::{RainData, RainMeter};

#[test]
fn rate_is_count_over_elapsed() {
    let mut a = Anemometer::new(0);
    a.increment_counter();
    a.increment_counter();
    a.increment_counter();
    let p = a.update_data(1000);
    assert_eq!(p.data.spins_per_sec_milli, 3000);
    assert_eq!(p.data.last_updated, Some(1000));
    assert_eq!(a.counter, 0);
    assert_eq!(a.last_updated, 1000);
}

#[test]
fn rate_over_two_seconds() {
    let mut a = Anemometer::new(500);
    for _ in 0..5 {
        a.increment_counter();
    }
    let p = a.update_data(2500);
    assert_eq!(p.data.spins_per_sec_milli, 2500); // 5 / 2 s
}

#[test]
fn empty_window_yields_zero_rate() {
    let mut a = Anemometer::new(0);
    let p = a.update_data(1000);
    assert_eq!(p.data.spins_per_sec_milli, 0);
    assert_eq!(a.counter, 0);
}

#[test]
fn wind_speed_conversions() {
    // 1.000 rotation/s -> 1.201 km/h -> 0.746 mph, in milli-units.
    assert_eq!(AnemometerData::convert_to_kph(1000), 1201);
    assert_eq!(AnemometerData::convert_to_mph(1000), 746);
    assert_eq!(AnemometerData::convert_to_kph(3000), 3603);
    assert_eq!(AnemometerData::convert_to_mph(3000), 2238);
    assert_eq!(AnemometerData::convert_to_kph(0), 0);
    let d = AnemometerData::new(3000, Some(1));
    assert_eq!(d.get_kph(), 3603);
    assert_eq!(d.get_mph(), 2238);
}

#[test]
fn anemometer_payload_folds_into_day() {
    let mut point = DataPoint::new();
    let mut day = DaytimeData::new(0, None);
    AnemometerPayload::new(4000, Some(1)).update_data_fields(&mut point, &mut day);
    assert_eq!(day.wind_min, Some(4000));
    assert_eq!(day.wind_max, 4000);
    assert_eq!(point.get_anemometer_data().spins_per_sec_milli, 4000);
}

#[test]
fn rain_window_and_lifetime_totals() {
    let mut r = RainMeter::new(0);
    r.increment_counter();
    r.increment_counter();
    r.increment_counter();
    let p = r.update_data(1000);
    assert_eq!(p.data.ticks_per_sec_milli, 3000);
    assert_eq!(p.data.total_ticks, 3);
    assert_eq!(r.total_ticks, 3);
    assert_eq!(r.counter, 0);
    r.increment_counter();
    r.increment_counter();
    let p2 = r.update_data(2000);
    assert_eq!(p2.data.total_ticks, 2);
    assert_eq!(r.total_ticks, 5); // lifetime total never resets
}

#[test]
fn rain_conversions() {
    // Ticks divide out the bucket constant: 1 tick -> 0.357 milli-scaled cm.
    assert_eq!(RainData::convert_to_cm(1), 357);
    assert_eq!(RainData::convert_to_in(1), 140);
    assert_eq!(RainData::convert_to_cm(3), 1073);
    assert_eq!(RainData::convert_to_in(3), 422);
    assert_eq!(RainData::convert_to_cm(100), 35790);
    assert_eq!(RainData::convert_to_in(100), 14090);
    let d = RainData::new(3, 3000, Some(1));
    assert_eq!(d.count_to_cm(), 1073);
    assert_eq!(d.count_to_in(), 422);
    assert_eq!(d.get_amount_cm(), 1073);
    assert_eq!(d.get_amount_in(), 422);
}

#[test]
fn button_rate() {
    let mut b = Button::new(0);
    b.increment_counter();
    b.increment_counter();
    let p = b.update_data(4000);
    assert_eq!(p.presses_per_sec_milli, 500); // 2 presses / 4 s
    assert_eq!(b.counter, 0);
}
