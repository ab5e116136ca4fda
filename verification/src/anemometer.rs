//! Anemometer: counts rising edges and converts the pulse count of a
//! sampling window into a rotation rate, then into physical speeds.
//!
//! Rates and speeds are fixed-point integers in thousandths (milli-units):
//! a rate of 1.5 rotations per second is stored as 1500. Conversions follow
//! the chain rotations/s -> cm/s (half a rotation sweeps the cup circle's
//! circumference) -> km/h (unit scaling times an empirical wind-correction
//! factor) -> mph.

use vstd::prelude::*;
use crate::process::{DataPoint, DaytimeData, day_update_wind, point_update_anemometer};

verus! {

/// Distance one full rotation credits to the wind, in millionths of a
/// centimeter: half the count times the 9 cm-radius circle's circumference,
/// so one rotation is worth 9 * pi cm.
pub const SPIN_DISTANCE_CM_MICRO: u64 = 28274334;

/// km/h per (cm/s), times the 1.18 wind-correction factor, in hundred
/// thousandths: 3600 s/h / 100000 cm/km * 1.18 = 0.04248.
pub const CM_SEC_TO_KPH_ADJ_MICRO: u64 = 42480;

/// Meters-flavored miles: micrometers of a kilometer per mile.
pub const KM_TO_MI_MICRO: u64 = 1609344;

/// The largest rate a sampler can produce: a full counter over a window of
/// one millisecond. Conversions accept rates up to this bound, which keeps
/// every intermediate product inside its type.
pub const RATE_MILLI_MAX: u64 = 4294967295000000;

/// Rotation rate in milli-rotations/s to milli-cm/s.
pub open spec fn cm_per_sec_milli(spins_milli: int) -> int {
    spins_milli * (SPIN_DISTANCE_CM_MICRO as int) / 1000000
}

/// Rotation rate in milli-rotations/s to milli-km/h, wind-corrected.
pub open spec fn kph_milli_of(spins_milli: int) -> int {
    cm_per_sec_milli(spins_milli) * (CM_SEC_TO_KPH_ADJ_MICRO as int) / 1000000
}

/// Rotation rate in milli-rotations/s to milli-mph, wind-corrected.
pub open spec fn mph_milli_of(spins_milli: int) -> int {
    kph_milli_of(spins_milli) * 1000000 / (KM_TO_MI_MICRO as int)
}

/// The rate a pulse counter works out to over an elapsed window, in
/// milli-units per second.
pub open spec fn rate_milli(counter: int, elapsed_ms: int) -> int {
    counter * 1000000 / elapsed_ms
}

/// One wind-speed reading: rotation rate in milli-rotations/s plus the
/// timestamp of the sample. A missing timestamp is the sole validity flag.
#[derive(Debug, Clone, Copy, PartialEq, Eq, Structural)]
pub struct AnemometerData {
    pub spins_per_sec_milli: u64,
    pub last_updated: Option<u64>,
}

impl AnemometerData {
    pub fn new(spins_per_sec_milli: u64, last_updated: Option<u64>) -> (r: Self)
        ensures
            r.spins_per_sec_milli == spins_per_sec_milli,
            r.last_updated == last_updated,
    {
        Self { spins_per_sec_milli, last_updated }
    }

    /// A reading is valid exactly when it carries a timestamp.
    pub fn is_valid(&self) -> (r: bool)
        ensures
            r == (self.last_updated is Some),
    {
        self.last_updated.is_some()
    }

    pub fn get_last_updated(&self) -> (r: Option<u64>)
        ensures
            r == self.last_updated,
    {
        self.last_updated
    }

    /// This reading's wind-corrected speed in milli-km/h.
    pub fn get_kph(&self) -> (r: u64)
        requires
            self.spins_per_sec_milli <= RATE_MILLI_MAX,
        ensures
            r == kph_milli_of(self.spins_per_sec_milli as int),
    {
        Self::convert_to_kph(self.spins_per_sec_milli)
    }

    /// This reading's wind-corrected speed in milli-mph.
    pub fn get_mph(&self) -> (r: u64)
        requires
            self.spins_per_sec_milli <= RATE_MILLI_MAX,
        ensures
            r == mph_milli_of(self.spins_per_sec_milli as int),
    {
        Self::convert_to_mph(self.spins_per_sec_milli)
    }

    /// Pure conversion from a rate in milli-rotations/s to milli-km/h,
    /// reusable for rates and for stored daily extremes alike.
    pub fn convert_to_kph(spins_milli: u64) -> (r: u64)
        requires
            spins_milli <= RATE_MILLI_MAX,
        ensures
            r == kph_milli_of(spins_milli as int),
    {
        let cm: u128 = (spins_milli as u128) * (SPIN_DISTANCE_CM_MICRO as u128) / 1000000;
        proof {
            vstd::arithmetic::div_mod::lemma_div_is_ordered(
                spins_milli as int * SPIN_DISTANCE_CM_MICRO as int,
                RATE_MILLI_MAX as int * SPIN_DISTANCE_CM_MICRO as int,
                1000000,
            );
        }
        let kph: u128 = cm * (CM_SEC_TO_KPH_ADJ_MICRO as u128) / 1000000;
        proof {
            vstd::arithmetic::div_mod::lemma_div_is_ordered(
                cm as int * CM_SEC_TO_KPH_ADJ_MICRO as int,
                (RATE_MILLI_MAX as int * SPIN_DISTANCE_CM_MICRO as int / 1000000)
                    * CM_SEC_TO_KPH_ADJ_MICRO as int,
                1000000,
            );
        }
        kph as u64
    }

    /// Pure conversion from a rate in milli-rotations/s to milli-mph.
    pub fn convert_to_mph(spins_milli: u64) -> (r: u64)
        requires
            spins_milli <= RATE_MILLI_MAX,
        ensures
            r == mph_milli_of(spins_milli as int),
    {
        let kph: u128 = Self::convert_to_kph(spins_milli) as u128;
        let mph: u128 = kph * 1000000 / (KM_TO_MI_MICRO as u128);
        proof {
            vstd::arithmetic::div_mod::lemma_div_is_ordered(
                kph as int * 1000000,
                kph as int * KM_TO_MI_MICRO as int,
                KM_TO_MI_MICRO as int,
            );
            vstd::arithmetic::div_mod::lemma_div_multiples_vanish(
                kph as int,
                KM_TO_MI_MICRO as int,
            );
        }
        mph as u64
    }
}

/// A wind-speed payload: applying it folds the rate into the day's
/// min/max and replaces the snapshot's anemometer reading.
#[derive(Debug, Clone, Copy, PartialEq, Eq, Structural)]
pub struct AnemometerPayload {
    pub data: AnemometerData,
}

impl AnemometerPayload {
    pub fn new(spins_per_sec_milli: u64, last_updated: Option<u64>) -> (r: Self)
        ensures
            r.data.spins_per_sec_milli == spins_per_sec_milli,
            r.data.last_updated == last_updated,
    {
        Self { data: AnemometerData::new(spins_per_sec_milli, last_updated) }
    }

    /// Folds the reading into the day's wind minimum and maximum and stores
    /// it as the snapshot's current wind speed.
    pub fn update_data_fields(&self, data: &mut DataPoint, daytime_info: &mut DaytimeData)
        ensures
            *final(data) == point_update_anemometer(*old(data), self.data),
            *final(daytime_info) == day_update_wind(
                *old(daytime_info),
                self.data.spins_per_sec_milli,
            ),
    {
        daytime_info.update_wind(self.data.spins_per_sec_milli);
        data.update_anemometer(self.data);
    }
}

/// The anemometer driver: the edge count of the current window, the rate of
/// the last window, and when that window ended.
pub struct Anemometer {
    pub counter: u32,
    pub spins_per_sec_milli: u64,
    pub last_updated: u64,
}

impl Anemometer {
    pub fn new(now_ms: u64) -> (r: Self)
        ensures
            r.counter == 0,
            r.spins_per_sec_milli == 0,
            r.last_updated == now_ms,
    {
        Self { counter: 0, spins_per_sec_milli: 0, last_updated: now_ms }
    }

    /// Called once per detected rising edge; does nothing but count, so the
    /// edge-detection path stays cheap. The count pegs at the type's
    /// maximum rather than wrapping.
    pub fn increment_counter(&mut self)
        ensures
            final(self).counter == if old(self).counter < u32::MAX {
                old(self).counter + 1
            } else {
                old(self).counter as int
            },
            final(self).spins_per_sec_milli == old(self).spins_per_sec_milli,
            final(self).last_updated == old(self).last_updated,
    {
        if self.counter < u32::MAX {
            self.counter = self.counter + 1;
        }
    }

    /// Closes the sampling window: turns the edge count over the elapsed
    /// time into a rate in milli-rotations/s, zeroes the counter, advances
    /// the timestamp, and hands back the payload to publish.
    pub fn update_data(&mut self, now_ms: u64) -> (p: AnemometerPayload)
        requires
            old(self).last_updated < now_ms,
        ensures
            final(self).counter == 0,
            final(self).last_updated == now_ms,
            final(self).spins_per_sec_milli == rate_milli(
                old(self).counter as int,
                now_ms - old(self).last_updated,
            ),
            final(self).spins_per_sec_milli <= RATE_MILLI_MAX,
            p.data.spins_per_sec_milli == final(self).spins_per_sec_milli,
            p.data.last_updated == Some(now_ms),
    {
        let elapsed_ms: u64 = now_ms - self.last_updated;
        let rate: u64 = ((self.counter as u64 as u128) * 1000000 / (elapsed_ms as u128)) as u64;
        proof {
            let c = old(self).counter as int;
            let e = now_ms - old(self).last_updated;
            assert(c * 1000000 / e <= c * 1000000) by (nonlinear_arith)
                requires
                    e >= 1,
                    c >= 0,
            ;
        }
        self.spins_per_sec_milli = rate;
        self.counter = 0;
        self.last_updated = now_ms;
        AnemometerPayload::new(rate, Some(now_ms))
    }
}

} // verus!
