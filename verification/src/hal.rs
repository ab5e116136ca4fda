//! Narrow hardware-access interface: the GPIO line level and the monotonic
//! clock, the only two things the protocol loops ask the outside world.
//!
//! Every item here is trusted. None promises anything about the values that
//! come back: a line level and a clock reading depend on the world outside
//! the process, so the verified loops are proved for every answer.

use vstd::prelude::*;

verus! {

/// A GPIO pin in bidirectional mode, as the gpio driver crate hands it out.
/// Opaque here: only its line level is ever read from verified code.
#[verifier::external_type_specification]
#[verifier::external_body]
pub struct ExIoPin(rppal::gpio::IoPin);

/// Relies on rppal's IoPin::is_low to report the pin's current logic level.
/// Nothing is assumed of the result: the line is driven by the sensor.
pub assume_specification[ rppal::gpio::IoPin::is_low ](pin: &rppal::gpio::IoPin) -> bool;

/// Relies on rppal's IoPin::is_high to report the pin's current logic level.
/// Nothing is assumed of the result: the line is driven by the sensor.
pub assume_specification[ rppal::gpio::IoPin::is_high ](pin: &rppal::gpio::IoPin) -> bool;

/// A monotonic clock reading. Opaque: it only serves to measure a pulse.
#[verifier::external_type_specification]
#[verifier::external_body]
pub struct ExInstant(std::time::Instant);

/// Relies on std's Instant::now for a reading of the monotonic clock.
pub assume_specification[ std::time::Instant::now ]() -> std::time::Instant;

/// Relies on std's Instant::elapsed for the time since an earlier reading.
pub assume_specification[ std::time::Instant::elapsed ](
    t: &std::time::Instant,
) -> core::time::Duration;

/// Relies on std's Duration::as_micros for the whole microseconds of a span.
pub assume_specification[ core::time::Duration::as_micros ](
    d: &core::time::Duration,
) -> u128;

} // verus!
