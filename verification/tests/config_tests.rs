use weather_station::cache::ApiCache;
use weather_station::config::{Config, Dev, Prod};
use weather_station::events::{EmptyPayload, Event, EventType};
use weather_station::process::{DataManager, DataPoint, Payload};
use weather_station::rain::RainData;

fn sample_config(env: &str) -> Config {
    Config {
        env: env.to_string(),
        dev: Dev {
            addr: "localhost".to_string(),
            username: "dev".to_string(),
            password: "dev".to_string(),
            dbname: "weather".to_string(),
        },
        prod: Prod {
            addr: "db".to_string(),
            username: "prod".to_string(),
            password: "prod".to_string(),
            dbname: "weather".to_string(),
        },
    }
}

#[test]
fn prod_env_switch() {
    assert!(sample_config("prod").is_prod_env());
    assert!(!sample_config("dev").is_prod_env());
    assert!(!sample_config("production").is_prod_env());
    assert!(!sample_config("").is_prod_env());
}

#[test]
fn events_carry_their_kind() {
    let e = Event::new(EventType::RainCount);
    assert_eq!(e.get_event_type(), EventType::RainCount);
    let x = Event::new(EventType::Exit);
    assert_eq!(x.get_event_type(), EventType::Exit);
}

#[test]
fn empty_payload_changes_nothing() {
    let mut m = DataManager::new(0, false);
    let point_before = m.data;
    let day_before = m.current_data;
    m.apply_payload(Payload::Empty(EmptyPayload::new()));
    assert_eq!(m.data, point_before);
    assert_eq!(m.current_data, day_before);
}

#[test]
fn cache_hands_out_value_copies() {
    let mut cache = ApiCache::new(4);
    let copy = cache.get_latest_data();
    let mut fresh = DataPoint::new();
    fresh.update_rain(RainData::new(2, 500, Some(9)));
    cache.update_latest_data(fresh);
    // The earlier copy is unaffected by the later publish.
    assert!(!copy.get_rain_data().is_valid());
    assert!(cache.get_latest_data().get_rain_data().is_valid());
}

#[test]
fn cache_partial_updates() {
    let mut cache = ApiCache::new(4);
    let day0 = cache.get_daytime_data();
    let mut fresh = DataPoint::new();
    fresh.update_rain(RainData::new(1, 100, Some(1)));
    cache.update_api_cache(None, Some(fresh));
    assert_eq!(cache.get_daytime_data(), day0);
    assert!(cache.get_latest_data().get_rain_data().is_valid());
    let mut m = DataManager::new(9, false);
    let closed = m.handle_event(Event::new(EventType::MidnightRefresh), 10).unwrap();
    cache.update_api_cache(Some(closed), None);
    assert_eq!(cache.get_daytime_data().date, 9);
}
