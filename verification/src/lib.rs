//! Core logic of a single-board weather station: protocol decoding for a
//! DHT temperature/humidity sensor, wind-vane voltage-ladder matching,
//! pulse-rate sampling for the anemometer and rain gauge, the event and
//! payload types that tie sensors to the aggregator, and the daily rollup
//! state machine with its midnight rollover.

pub mod analog;
pub mod anemometer;
pub mod button;
pub mod cache;
pub mod config;
pub mod dht;
pub mod display;
pub mod events;
pub mod hal;
pub mod process;
pub mod rain;
pub mod scheduler;
pub mod vane;
