//! Rain gauge: counts bucket ticks, derives a tick rate per sampling
//! window, and keeps a never-reset lifetime tick total. A payload carries
//! the window's tick delta, which the aggregator folds into the day total.
//!
//! Amounts are fixed-point integers in thousandths (milli-units). Tick
//! counts convert to centimeters through the per-tick bucket constant and
//! to inches through the fixed factor.

use vstd::prelude::*;
use crate::anemometer::rate_milli;
use crate::process::{DataPoint, DaytimeData, day_add_rain, point_update_rain};

verus! {

/// The per-tick bucket constant, in ten-thousandths: one tick divides out
/// 0.2794 of a millimeter unit.
pub const TICK_DIVISOR_TEN_THOUSANDTHS: u64 = 2794;

/// Hundredths of a centimeter per inch.
pub const CM_TO_IN_CENTI: u64 = 254;

/// A lifetime or window tick count converted to milli-centimeters.
pub open spec fn rain_cm_milli(count: int) -> int {
    count * 1000000 / (TICK_DIVISOR_TEN_THOUSANDTHS as int)
}

/// A lifetime or window tick count converted to milli-inches.
pub open spec fn rain_in_milli(count: int) -> int {
    rain_cm_milli(count) * 100 / (CM_TO_IN_CENTI as int)
}

/// A tick rate in milli-ticks/s converted to milli-centimeters.
pub open spec fn rain_rate_cm_milli(ticks_milli: int) -> int {
    ticks_milli * 1000 / (TICK_DIVISOR_TEN_THOUSANDTHS as int)
}

/// A tick rate in milli-ticks/s converted to milli-inches.
pub open spec fn rain_rate_in_milli(ticks_milli: int) -> int {
    rain_rate_cm_milli(ticks_milli) * 100 / (CM_TO_IN_CENTI as int)
}

/// One rain reading: the window's tick delta, the tick rate of the window
/// in milli-ticks/s, and the timestamp of the sample. A missing timestamp
/// is the sole validity flag.
#[derive(Debug, Clone, Copy, PartialEq, Eq, Structural)]
pub struct RainData {
    pub total_ticks: u32,
    pub ticks_per_sec_milli: u64,
    pub last_updated: Option<u64>,
}

impl RainData {
    pub fn new(total_ticks: u32, ticks_per_sec_milli: u64, last_updated: Option<u64>) -> (r: Self)
        ensures
            r.total_ticks == total_ticks,
            r.ticks_per_sec_milli == ticks_per_sec_milli,
            r.last_updated == last_updated,
    {
        Self { total_ticks, ticks_per_sec_milli, last_updated }
    }

    /// A reading is valid exactly when it carries a timestamp.
    pub fn is_valid(&self) -> (r: bool)
        ensures
            r == (self.last_updated is Some),
    {
        self.last_updated.is_some()
    }

    pub fn get_last_updated(&self) -> (r: Option<u64>)
        ensures
            r == self.last_updated,
    {
        self.last_updated
    }

    /// This reading's rate as milli-centimeters.
    pub fn get_amount_cm(&self) -> (r: u64)
        ensures
            r == rain_rate_cm_milli(self.ticks_per_sec_milli as int),
    {
        ((self.ticks_per_sec_milli as u128) * 1000 / (TICK_DIVISOR_TEN_THOUSANDTHS as u128)) as u64
    }

    /// This reading's rate as milli-inches.
    pub fn get_amount_in(&self) -> (r: u64)
        ensures
            r == rain_rate_in_milli(self.ticks_per_sec_milli as int),
    {
        ((self.get_amount_cm() as u128) * 100 / (CM_TO_IN_CENTI as u128)) as u64
    }

    /// This reading's window tick delta as milli-centimeters.
    pub fn count_to_cm(&self) -> (r: u64)
        ensures
            r == rain_cm_milli(self.total_ticks as int),
    {
        Self::convert_to_cm(self.total_ticks)
    }

    /// This reading's window tick delta as milli-inches.
    pub fn count_to_in(&self) -> (r: u64)
        ensures
            r == rain_in_milli(self.total_ticks as int),
    {
        Self::convert_to_in(self.total_ticks)
    }

    /// Pure conversion from a tick count to milli-centimeters, reusable for
    /// window deltas and for the day's cumulative total alike.
    pub fn convert_to_cm(count: u32) -> (r: u64)
        ensures
            r == rain_cm_milli(count as int),
    {
        ((count as u128) * 1000000 / (TICK_DIVISOR_TEN_THOUSANDTHS as u128)) as u64
    }

    /// Pure conversion from a tick count to milli-inches.
    pub fn convert_to_in(count: u32) -> (r: u64)
        ensures
            r == rain_in_milli(count as int),
    {
        ((Self::convert_to_cm(count) as u128) * 100 / (CM_TO_IN_CENTI as u128)) as u64
    }
}

/// A rain payload: applying it adds the window's tick delta to the day's
/// cumulative rain and replaces the snapshot's rain reading.
#[derive(Debug, Clone, Copy, PartialEq, Eq, Structural)]
pub struct RainPayload {
    pub data: RainData,
}

impl RainPayload {
    pub fn new(total_ticks: u32, ticks_per_sec_milli: u64, last_updated: Option<u64>) -> (r: Self)
        ensures
            r.data.total_ticks == total_ticks,
            r.data.ticks_per_sec_milli == ticks_per_sec_milli,
            r.data.last_updated == last_updated,
    {
        Self { data: RainData::new(total_ticks, ticks_per_sec_milli, last_updated) }
    }

    /// Adds the window's tick delta to the day's cumulative rain and stores
    /// the reading as the snapshot's current rain state.
    pub fn update_data_fields(&self, data: &mut DataPoint, daytime_info: &mut DaytimeData)
        ensures
            *final(data) == point_update_rain(*old(data), self.data),
            *final(daytime_info) == day_add_rain(*old(daytime_info), self.data.total_ticks),
    {
        daytime_info.add_rain(self.data.total_ticks);
        data.update_rain(self.data);
    }
}

/// The rain-gauge driver: the tick count of the current window, the
/// lifetime tick total, the rate of the last window, and when that window
/// ended.
pub struct RainMeter {
    pub counter: u32,
    pub total_ticks: u64,
    pub ticks_per_sec_milli: u64,
    pub last_updated: u64,
}

impl RainMeter {
    pub fn new(now_ms: u64) -> (r: Self)
        ensures
            r.counter == 0,
            r.total_ticks == 0,
            r.ticks_per_sec_milli == 0,
            r.last_updated == now_ms,
    {
        Self { counter: 0, total_ticks: 0, ticks_per_sec_milli: 0, last_updated: now_ms }
    }

    /// Called once per detected rising edge; does nothing but count, so the
    /// edge-detection path stays cheap. The count pegs at the type's
    /// maximum rather than wrapping.
    pub fn increment_counter(&mut self)
        ensures
            final(self).counter == if old(self).counter < u32::MAX {
                old(self).counter + 1
            } else {
                old(self).counter as int
            },
            final(self).total_ticks == old(self).total_ticks,
            final(self).ticks_per_sec_milli == old(self).ticks_per_sec_milli,
            final(self).last_updated == old(self).last_updated,
    {
        if self.counter < u32::MAX {
            self.counter = self.counter + 1;
        }
    }

    /// Closes the sampling window: turns the tick count over the elapsed
    /// time into a rate in milli-ticks/s, folds the window's delta into the
    /// lifetime total (which never decreases and pegs at the type's
    /// maximum), zeroes the counter, advances the timestamp, and hands back
    /// the payload carrying the window's delta.
    pub fn update_data(&mut self, now_ms: u64) -> (p: RainPayload)
        requires
            old(self).last_updated < now_ms,
        ensures
            final(self).counter == 0,
            final(self).last_updated == now_ms,
            final(self).ticks_per_sec_milli == rate_milli(
                old(self).counter as int,
                now_ms - old(self).last_updated,
            ),
            final(self).total_ticks == if old(self).total_ticks + old(self).counter
                <= u64::MAX {
                old(self).total_ticks + old(self).counter
            } else {
                u64::MAX as int
            },
            final(self).total_ticks >= old(self).total_ticks,
            p.data.total_ticks == old(self).counter,
            p.data.ticks_per_sec_milli == final(self).ticks_per_sec_milli,
            p.data.last_updated == Some(now_ms),
    {
        let elapsed_ms: u64 = now_ms - self.last_updated;
        let delta: u32 = self.counter;
        let rate: u64 = ((delta as u128) * 1000000 / (elapsed_ms as u128)) as u64;
        proof {
            let c = old(self).counter as int;
            let e = now_ms - old(self).last_updated;
            assert(c * 1000000 / e <= c * 1000000) by (nonlinear_arith)
                requires
                    e >= 1,
                    c >= 0,
            ;
        }
        self.ticks_per_sec_milli = rate;
        self.counter = 0;
        if delta as u64 <= u64::MAX - self.total_ticks {
            self.total_ticks = self.total_ticks + delta as u64;
        } else {
            self.total_ticks = u64::MAX;
        }
        self.last_updated = now_ms;
        RainPayload::new(delta, rate, Some(now_ms))
    }
}

} // verus!
