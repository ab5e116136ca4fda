//! The aggregator: the live snapshot of the most recent reading per
//! sensor, the current day's rollup, and the data manager that applies
//! payloads, handles the midnight rollover, and paces its own cycle.
//!
//! Within one cycle payloads are always drained fully before control
//! events, so a reading queued in the same cycle as the rollover lands in
//! the closing day; the rollover returns the closed rollup by value, so no
//! later payload can reach it.

use vstd::prelude::*;
use crate::anemometer::{AnemometerData, AnemometerPayload, RATE_MILLI_MAX, mph_milli_of};
use crate::dht::{DHTData, DHTPayload, INVALID_TENTHS, fahrenheit_tenths};
use crate::events::{EmptyPayload, Event, EventType};
use crate::rain::{RainData, RainPayload, rain_cm_milli, rain_in_milli};
use crate::vane::{WindVaneData, WindVanePayload};

verus! {

/// The cycle budget of the aggregation loop, in milliseconds: the sleep at
/// the end of a cycle is this budget minus the time the cycle already
/// spent, so long steps do not let the rate drift.
pub const CYCLE_BUDGET_MS: u64 = 990;

/// A ping is attempted only every this many cycles, keeping the blocking
/// connectivity check off the hot path.
pub const PING_CADENCE_CYCLES: u64 = 30;

/// The display is redrawn every this many cycles.
pub const LCD_CADENCE_CYCLES: u64 = 5;

/// A cycle step longer than this many milliseconds is charged to the
/// cadence counters instead of the sleep budget.
pub const SLOW_STEP_MS: u64 = 900;

/// Pages the display rotates through.
pub const LCD_PAGE_COUNT: u8 = 6;

/// The most recent reading per sensor kind. Absence of a timestamp in a
/// reading means "never successfully sampled"; numeric fields alone are
/// never meaningful.
#[derive(Debug, Clone, Copy, PartialEq, Eq, Structural)]
pub struct DataPoint {
    pub dht_data: DHTData,
    pub anemometer_data: AnemometerData,
    pub directional_data: WindVaneData,
    pub rain_data: RainData,
}

/// The snapshot a fresh process starts from: every reading invalid.
pub open spec fn point_default() -> DataPoint {
    DataPoint {
        dht_data: DHTData {
            temperature_tenths: INVALID_TENTHS as i32,
            humidity_tenths: INVALID_TENTHS as i32,
            last_updated: None,
        },
        anemometer_data: AnemometerData { spins_per_sec_milli: 0, last_updated: None },
        directional_data: WindVaneData { direction_tenths: 0, last_updated: None },
        rain_data: RainData { total_ticks: 0, ticks_per_sec_milli: 0, last_updated: None },
    }
}

pub open spec fn point_update_dht(d: DataPoint, x: DHTData) -> DataPoint {
    DataPoint { dht_data: x, ..d }
}

pub open spec fn point_update_anemometer(d: DataPoint, x: AnemometerData) -> DataPoint {
    DataPoint { anemometer_data: x, ..d }
}

pub open spec fn point_update_direction(d: DataPoint, x: WindVaneData) -> DataPoint {
    DataPoint { directional_data: x, ..d }
}

pub open spec fn point_update_rain(d: DataPoint, x: RainData) -> DataPoint {
    DataPoint { rain_data: x, ..d }
}

impl DataPoint {
    pub fn new() -> (r: Self)
        ensures
            r == point_default(),
    {
        Self {
            dht_data: DHTData::new(INVALID_TENTHS, INVALID_TENTHS, None),
            anemometer_data: AnemometerData::new(0, None),
            directional_data: WindVaneData::new(0, None),
            rain_data: RainData::new(0, 0, None),
        }
    }

    pub fn update_dht(&mut self, data: DHTData)
        ensures
            *final(self) == point_update_dht(*old(self), data),
    {
        self.dht_data = data;
    }

    pub fn update_anemometer(&mut self, data: AnemometerData)
        ensures
            *final(self) == point_update_anemometer(*old(self), data),
    {
        self.anemometer_data = data;
    }

    pub fn update_direction(&mut self, data: WindVaneData)
        ensures
            *final(self) == point_update_direction(*old(self), data),
    {
        self.directional_data = data;
    }

    pub fn update_rain(&mut self, data: RainData)
        ensures
            *final(self) == point_update_rain(*old(self), data),
    {
        self.rain_data = data;
    }

    /// Copy-on-read accessors: external readers get values, never a live
    /// reference into the aggregator's state.
    pub fn get_temp_data(&self) -> (r: DHTData)
        ensures
            r == self.dht_data,
    {
        self.dht_data
    }

    pub fn get_anemometer_data(&self) -> (r: AnemometerData)
        ensures
            r == self.anemometer_data,
    {
        self.anemometer_data
    }

    pub fn get_directional_data(&self) -> (r: WindVaneData)
        ensures
            r == self.directional_data,
    {
        self.directional_data
    }

    pub fn get_rain_data(&self) -> (r: RainData)
        ensures
            r == self.rain_data,
    {
        self.rain_data
    }
}

/// Statistics accumulated over one calendar day. The wind minimum starts
/// unset — zero is a legitimate low reading, so "no reading yet" must be a
/// state of its own — and the first reading of the day initializes it.
#[derive(Debug, Clone, Copy, PartialEq, Eq, Structural)]
pub struct DaytimeData {
    pub date: u64,
    pub prev_date: Option<u64>,
    pub rain_total: u32,
    pub wind_max: u64,
    pub wind_min: Option<u64>,
    pub temp_hi: i32,
    pub temp_lo: i32,
    pub temp_avg: i32,
    pub temp_total: i64,
    pub temp_col_count: u32,
}

/// A rollup with every accumulator zeroed, dated `today`, remembering the
/// day it replaced.
pub open spec fn day_fresh(today: u64, prev_date: Option<u64>) -> DaytimeData {
    DaytimeData {
        date: today,
        prev_date,
        rain_total: 0,
        wind_max: 0,
        wind_min: None,
        temp_hi: 0,
        temp_lo: (-10) as i32,
        temp_avg: 0,
        temp_total: 0,
        temp_col_count: 0,
    }
}

/// One wind reading folded into the day: the minimum is taken when unset
/// or strictly beaten, the maximum only when strictly beaten.
pub open spec fn day_update_wind(day: DaytimeData, v: u64) -> DaytimeData {
    DaytimeData {
        wind_min: match day.wind_min {
            None => Some(v),
            Some(m) => if v < m {
                Some(v)
            } else {
                Some(m)
            },
        },
        wind_max: if day.wind_max < v {
            v
        } else {
            day.wind_max
        },
        ..day
    }
}

/// One rain window's tick delta added to the day's cumulative total,
/// pegging at the type's maximum rather than wrapping.
pub open spec fn day_add_rain(day: DaytimeData, delta: u32) -> DaytimeData {
    DaytimeData {
        rain_total: if day.rain_total + delta <= u32::MAX {
            (day.rain_total + delta) as u32
        } else {
            u32::MAX
        },
        ..day
    }
}

impl DaytimeData {
    pub fn new(today: u64, prev_date: Option<u64>) -> (r: Self)
        ensures
            r == day_fresh(today, prev_date),
    {
        Self {
            date: today,
            prev_date,
            rain_total: 0,
            wind_max: 0,
            wind_min: None,
            temp_hi: 0,
            temp_lo: -10,
            temp_avg: 0,
            temp_total: 0,
            temp_col_count: 0,
        }
    }

    pub fn update_wind(&mut self, v: u64)
        ensures
            *final(self) == day_update_wind(*old(self), v),
    {
        let take_min = match self.wind_min {
            None => true,
            Some(m) => v < m,
        };
        if take_min {
            self.wind_min = Some(v);
        }
        if self.wind_max < v {
            self.wind_max = v;
        }
    }

    pub fn add_rain(&mut self, delta: u32)
        ensures
            *final(self) == day_add_rain(*old(self), delta),
    {
        if delta <= u32::MAX - self.rain_total {
            self.rain_total = self.rain_total + delta;
        } else {
            self.rain_total = u32::MAX;
        }
    }

    /// The day's cumulative rain in milli-centimeters.
    pub fn get_rain_total_cm(&self) -> (r: u64)
        ensures
            r == rain_cm_milli(self.rain_total as int),
    {
        RainData::convert_to_cm(self.rain_total)
    }

    /// The day's cumulative rain in milli-inches.
    pub fn get_rain_total_in(&self) -> (r: u64)
        ensures
            r == rain_in_milli(self.rain_total as int),
    {
        RainData::convert_to_in(self.rain_total)
    }

    /// The day's lowest wind rate as milli-mph; absent until the first
    /// wind reading of the day.
    pub fn get_wind_min_mph(&self) -> (r: Option<u64>)
        requires
            self.wind_min matches Some(m) ==> m <= RATE_MILLI_MAX,
        ensures
            match self.wind_min {
                None => r is None,
                Some(m) => r == Some(mph_milli_of(m as int) as u64),
            },
    {
        match self.wind_min {
            None => None,
            Some(m) => Some(AnemometerData::convert_to_mph(m)),
        }
    }

    /// The day's highest wind rate as milli-mph.
    pub fn get_wind_max_mph(&self) -> (r: u64)
        requires
            self.wind_max <= RATE_MILLI_MAX,
        ensures
            r == mph_milli_of(self.wind_max as int),
    {
        AnemometerData::convert_to_mph(self.wind_max)
    }

    pub fn get_current_date(&self) -> (r: u64)
        ensures
            r == self.date,
    {
        self.date
    }
}

/// First wind reading of a fresh day: it becomes both the minimum and the
/// maximum, never a zero or an unrelated stand-in. Afterwards a reading
/// moves the minimum only by being strictly lower and the maximum only by
/// being strictly higher.
pub proof fn lemma_wind_min_max(day: DaytimeData, v: u64)
    ensures
        day.wind_min is None ==> day_update_wind(day, v).wind_min == Some(v),
        day.wind_min is None && day.wind_max == 0 ==> day_update_wind(day, v).wind_max == v,
        day.wind_min is Some ==> day_update_wind(day, v).wind_min == Some(
            if v < day.wind_min->0 {
                v
            } else {
                day.wind_min->0
            },
        ),
        day_update_wind(day, v).wind_max == if day.wind_max < v {
            v
        } else {
            day.wind_max
        },
        day_update_wind(day, v).rain_total == day.rain_total,
        day_update_wind(day, v).date == day.date,
        day_update_wind(day, v).prev_date == day.prev_date,
{
}

/// Midnight rollover law: the rollup that replaces a closed day starts
/// with every accumulator zeroed and remembers the closed day's date, and
/// no payload applied afterwards can disturb that identity — payloads
/// change accumulators only, never which day the rollup belongs to. The
/// closed rollup itself leaves the aggregator by value, out of every later
/// payload's reach.
pub proof fn lemma_midnight_rollover(day: DaytimeData, today: u64, p: Payload, d: DataPoint)
    ensures
        day_fresh(today, Some(day.date)).rain_total == 0,
        day_fresh(today, Some(day.date)).wind_max == 0,
        day_fresh(today, Some(day.date)).wind_min is None,
        day_fresh(today, Some(day.date)).date == today,
        day_fresh(today, Some(day.date)).prev_date == Some(day.date),
        payload_apply(p, d, day_fresh(today, Some(day.date))).1.date == today,
        payload_apply(p, d, day_fresh(today, Some(day.date))).1.prev_date == Some(day.date),
{
}

/// A typed sensor reading: the closed set of payload kinds, each knowing
/// how to fold itself into the snapshot and the day rollup.
#[derive(Debug, Clone, Copy)]
pub enum Payload {
    Dht(DHTPayload),
    Anemometer(AnemometerPayload),
    Rain(RainPayload),
    WindVane(WindVanePayload),
    Empty(EmptyPayload),
}

/// What applying a payload does to the snapshot and the rollup.
pub open spec fn payload_apply(p: Payload, d: DataPoint, day: DaytimeData) -> (DataPoint,
    DaytimeData) {
    match p {
        Payload::Dht(x) => (point_update_dht(d, x.data), day),
        Payload::Anemometer(x) => (
            point_update_anemometer(d, x.data),
            day_update_wind(day, x.data.spins_per_sec_milli),
        ),
        Payload::Rain(x) => (point_update_rain(d, x.data), day_add_rain(day, x.data.total_ticks)),
        Payload::WindVane(x) => (point_update_direction(d, x.data), day),
        Payload::Empty(_) => (d, day),
    }
}

impl Payload {
    /// Applies this reading to the snapshot and the day rollup.
    pub fn update_data_fields(&self, data: &mut DataPoint, daytime_info: &mut DaytimeData)
        ensures
            (*final(data), *final(daytime_info)) == payload_apply(
                *self,
                *old(data),
                *old(daytime_info),
            ),
    {
        match self {
            Payload::Dht(x) => x.update_data_fields(data, daytime_info),
            Payload::Anemometer(x) => x.update_data_fields(data, daytime_info),
            Payload::Rain(x) => x.update_data_fields(data, daytime_info),
            Payload::WindVane(x) => x.update_data_fields(data, daytime_info),
            Payload::Empty(_) => (),
        }
    }
}

/// A payload's wind rate, where it carries one, stays within what the
/// samplers can produce.
pub open spec fn payload_rate_bounded(p: Payload) -> bool {
    match p {
        Payload::Anemometer(x) => x.data.spins_per_sec_milli <= RATE_MILLI_MAX,
        _ => true,
    }
}

/// Applying payloads loses no sample and mislabels no day: the cumulative
/// rain and the wind maximum never decrease, the rollup keeps its date and
/// its reference to the previous day, and bounded rates stay bounded, so
/// unit conversions on the rollup stay within range.
pub proof fn lemma_payload_day_monotone(p: Payload, d: DataPoint, day: DaytimeData)
    ensures
        payload_apply(p, d, day).1.rain_total >= day.rain_total,
        payload_apply(p, d, day).1.wind_max >= day.wind_max,
        payload_apply(p, d, day).1.date == day.date,
        payload_apply(p, d, day).1.prev_date == day.prev_date,
        payload_rate_bounded(p) && day.wind_max <= RATE_MILLI_MAX && (day.wind_min matches Some(v)
            ==> v <= RATE_MILLI_MAX) ==> {
            &&& payload_apply(p, d, day).1.wind_max <= RATE_MILLI_MAX
            &&& (payload_apply(p, d, day).1.wind_min matches Some(v) ==> v <= RATE_MILLI_MAX)
        },
{
}

/// What one display page should show, as plain values; rendering the text
/// belongs to the display collaborator.
#[derive(Debug, Clone, Copy, PartialEq, Eq, Structural)]
pub enum PageContent {
    Clock,
    TempHumidity { temp_f_tenths: i64, temp_c_tenths: i32, humidity_tenths: i32 },
    Wind { direction_tenths: u16, mph_milli: u64, kph_milli: u64 },
    WindMinMax { min_mph_milli: Option<u64>, max_mph_milli: u64 },
    RainTotals { in_milli: u64, cm_milli: u64 },
    SystemHealth,
    Unavailable,
    Blank,
}

/// The aggregator's whole in-memory state: the snapshot, the current day,
/// the advisory connectivity flag, and the cadence counters of its cycle.
pub struct DataManager {
    pub data: DataPoint,
    pub current_data: DaytimeData,
    pub has_internet_connection: bool,
    pub lcd_loop: u8,
    pub update_lcd: u64,
    pub ping_loop: u64,
}

/// The wind rates held by the manager stay within what the samplers can
/// produce, so unit conversions cannot overflow.
pub open spec fn rates_bounded(m: DataManager) -> bool {
    &&& m.data.anemometer_data.spins_per_sec_milli <= RATE_MILLI_MAX
    &&& m.current_data.wind_max <= RATE_MILLI_MAX
    &&& (m.current_data.wind_min matches Some(v) ==> v <= RATE_MILLI_MAX)
}

impl DataManager {
    /// A fresh manager: empty snapshot, a fresh rollup with no previous
    /// day, and cadence counters set so the display refreshes on startup.
    pub fn new(today: u64, has_internet: bool) -> (r: Self)
        ensures
            r.data == point_default(),
            r.current_data == day_fresh(today, None),
            r.has_internet_connection == has_internet,
            r.lcd_loop == 0,
            r.update_lcd == LCD_CADENCE_CYCLES,
            r.ping_loop == 0,
    {
        Self {
            data: DataPoint::new(),
            current_data: DaytimeData::new(today, None),
            has_internet_connection: has_internet,
            lcd_loop: 0,
            update_lcd: LCD_CADENCE_CYCLES,
            ping_loop: 0,
        }
    }

    /// Applies one drained payload to the snapshot and the rollup.
    pub fn apply_payload(&mut self, p: Payload)
        ensures
            (final(self).data, final(self).current_data) == payload_apply(
                p,
                old(self).data,
                old(self).current_data,
            ),
            final(self).has_internet_connection == old(self).has_internet_connection,
            final(self).lcd_loop == old(self).lcd_loop,
            final(self).update_lcd == old(self).update_lcd,
            final(self).ping_loop == old(self).ping_loop,
    {
        p.update_data_fields(&mut self.data, &mut self.current_data);
    }

    /// Handles one drained control event. On the midnight rollover the
    /// outgoing rollup is returned by value for persistence — nothing
    /// applied to the manager afterwards can change it — and is replaced
    /// by a fresh rollup that remembers the closed day; every accumulator
    /// of the new day starts zeroed. All other events leave the manager
    /// untouched here: they are dispatch concerns, not aggregation.
    pub fn handle_event(&mut self, event: Event, today: u64) -> (closed: Option<DaytimeData>)
        ensures
            event.event_type == EventType::MidnightRefresh ==> {
                &&& closed == Some(old(self).current_data)
                &&& final(self).current_data == day_fresh(
                    today,
                    Some(old(self).current_data.date),
                )
                &&& final(self).data == old(self).data
            },
            event.event_type != EventType::MidnightRefresh ==> {
                &&& closed is None
                &&& *final(self) == *old(self)
            },
            final(self).has_internet_connection == old(self).has_internet_connection,
            final(self).lcd_loop == old(self).lcd_loop,
            final(self).update_lcd == old(self).update_lcd,
            final(self).ping_loop == old(self).ping_loop,
    {
        match event.get_event_type() {
            EventType::MidnightRefresh => {
                let prev = self.current_data;
                self.current_data = DaytimeData::new(today, Some(prev.get_current_date()));
                Some(prev)
            },
            _ => None,
        }
    }

    /// Advances the display cadence: most cycles only count up; every
    /// LCD_CADENCE_CYCLES-th cycle reports the page to draw and rotates
    /// the page index.
    pub fn lcd_step(&mut self) -> (page: Option<u8>)
        ensures
            final(self).data == old(self).data,
            final(self).current_data == old(self).current_data,
            final(self).has_internet_connection == old(self).has_internet_connection,
            final(self).ping_loop == old(self).ping_loop,
            old(self).update_lcd < LCD_CADENCE_CYCLES ==> {
                &&& final(self).update_lcd == old(self).update_lcd + 1
                &&& final(self).lcd_loop == old(self).lcd_loop
                &&& page is None
            },
            old(self).update_lcd >= LCD_CADENCE_CYCLES ==> {
                &&& final(self).update_lcd == 0
                &&& page == Some(old(self).lcd_loop)
                &&& final(self).lcd_loop == if old(self).lcd_loop >= LCD_PAGE_COUNT - 1 {
                    0
                } else {
                    old(self).lcd_loop + 1
                }
            },
    {
        if self.update_lcd < LCD_CADENCE_CYCLES {
            self.update_lcd = self.update_lcd + 1;
            None
        } else {
            self.update_lcd = 0;
            let page = self.lcd_loop;
            self.lcd_loop = if self.lcd_loop >= LCD_PAGE_COUNT - 1 {
                0
            } else {
                self.lcd_loop + 1
            };
            Some(page)
        }
    }

    /// Advances the connectivity cadence: reports true on the cycle where
    /// a ping is due and restarts the count.
    pub fn ping_step(&mut self) -> (do_ping: bool)
        ensures
            final(self).data == old(self).data,
            final(self).current_data == old(self).current_data,
            final(self).has_internet_connection == old(self).has_internet_connection,
            final(self).lcd_loop == old(self).lcd_loop,
            final(self).update_lcd == old(self).update_lcd,
            old(self).ping_loop < PING_CADENCE_CYCLES ==> {
                &&& !do_ping
                &&& final(self).ping_loop == old(self).ping_loop + 1
            },
            old(self).ping_loop >= PING_CADENCE_CYCLES ==> {
                &&& do_ping
                &&& final(self).ping_loop == 0
            },
    {
        if self.ping_loop < PING_CADENCE_CYCLES {
            self.ping_loop = self.ping_loop + 1;
            false
        } else {
            self.ping_loop = 0;
            true
        }
    }

    /// Records the advisory outcome of a connectivity check.
    pub fn record_ping_result(&mut self, ok: bool)
        ensures
            final(self).has_internet_connection == ok,
            final(self).data == old(self).data,
            final(self).current_data == old(self).current_data,
            final(self).lcd_loop == old(self).lcd_loop,
            final(self).update_lcd == old(self).update_lcd,
            final(self).ping_loop == old(self).ping_loop,
    {
        self.has_internet_connection = ok;
    }

    /// Charges one long step against the cycle: a quick step is returned
    /// as time the sleep must compensate; a slow one instead advances the
    /// cadence counters by its whole seconds, pegging rather than
    /// wrapping, and charges nothing.
    pub fn absorb_delay(&mut self, elapsed_ms: u64) -> (charge: u64)
        ensures
            final(self).data == old(self).data,
            final(self).current_data == old(self).current_data,
            final(self).has_internet_connection == old(self).has_internet_connection,
            final(self).lcd_loop == old(self).lcd_loop,
            elapsed_ms <= SLOW_STEP_MS ==> {
                &&& charge == elapsed_ms
                &&& final(self).update_lcd == old(self).update_lcd
                &&& final(self).ping_loop == old(self).ping_loop
            },
            elapsed_ms > SLOW_STEP_MS ==> {
                &&& charge == 0
                &&& final(self).update_lcd == if old(self).update_lcd + elapsed_ms / 1000
                    <= u64::MAX {
                    old(self).update_lcd + elapsed_ms / 1000
                } else {
                    u64::MAX as int
                }
                &&& final(self).ping_loop == if old(self).ping_loop + elapsed_ms / 1000
                    <= u64::MAX {
                    old(self).ping_loop + elapsed_ms / 1000
                } else {
                    u64::MAX as int
                }
            },
    {
        if elapsed_ms <= SLOW_STEP_MS {
            elapsed_ms
        } else {
            let secs = elapsed_ms / 1000;
            if secs <= u64::MAX - self.update_lcd {
                self.update_lcd = self.update_lcd + secs;
            } else {
                self.update_lcd = u64::MAX;
            }
            if secs <= u64::MAX - self.ping_loop {
                self.ping_loop = self.ping_loop + secs;
            } else {
                self.ping_loop = u64::MAX;
            }
            0
        }
    }

    /// What the requested display page should show, given what is valid
    /// right now: pages fall back to "unavailable" rather than showing a
    /// default number as if it were a reading.
    pub fn lcd_page_content(&self, show_id: i32) -> (r: PageContent)
        requires
            rates_bounded(*self),
        ensures
            show_id == 0 ==> r == PageContent::Clock,
            show_id == 1 ==> r == if self.data.dht_data.last_updated is Some {
                (PageContent::TempHumidity {
                    temp_f_tenths: fahrenheit_tenths(
                        self.data.dht_data.temperature_tenths as int,
                    ) as i64,
                    temp_c_tenths: self.data.dht_data.temperature_tenths,
                    humidity_tenths: self.data.dht_data.humidity_tenths,
                })
            } else {
                PageContent::Unavailable
            },
            show_id == 2 ==> r == if self.data.anemometer_data.last_updated is Some
                && self.data.directional_data.last_updated is Some {
                (PageContent::Wind {
                    direction_tenths: self.data.directional_data.direction_tenths,
                    mph_milli: mph_milli_of(
                        self.data.anemometer_data.spins_per_sec_milli as int,
                    ) as u64,
                    kph_milli: crate::anemometer::kph_milli_of(
                        self.data.anemometer_data.spins_per_sec_milli as int,
                    ) as u64,
                })
            } else {
                PageContent::Unavailable
            },
            show_id == 3 ==> r == if self.data.anemometer_data.last_updated is Some {
                (PageContent::WindMinMax {
                    min_mph_milli: match self.current_data.wind_min {
                        None => None,
                        Some(m) => Some(mph_milli_of(m as int) as u64),
                    },
                    max_mph_milli: mph_milli_of(self.current_data.wind_max as int) as u64,
                })
            } else {
                PageContent::Unavailable
            },
            show_id == 4 ==> r == if self.data.rain_data.last_updated is Some {
                (PageContent::RainTotals {
                    in_milli: rain_in_milli(self.current_data.rain_total as int) as u64,
                    cm_milli: rain_cm_milli(self.current_data.rain_total as int) as u64,
                })
            } else {
                PageContent::Unavailable
            },
            show_id == 5 ==> r == PageContent::SystemHealth,
            show_id < 0 || show_id > 5 ==> r == PageContent::Blank,
    {
        if show_id == 0 {
            PageContent::Clock
        } else if show_id == 1 {
            if self.data.dht_data.is_valid() {
                PageContent::TempHumidity {
                    temp_f_tenths: self.data.dht_data.get_temp_farenheit(),
                    temp_c_tenths: self.data.dht_data.get_temp_celsius(),
                    humidity_tenths: self.data.dht_data.get_humidity(),
                }
            } else {
                PageContent::Unavailable
            }
        } else if show_id == 2 {
            if self.data.anemometer_data.is_valid() && self.data.directional_data.is_valid() {
                PageContent::Wind {
                    direction_tenths: self.data.directional_data.get_direction(),
                    mph_milli: self.data.anemometer_data.get_mph(),
                    kph_milli: self.data.anemometer_data.get_kph(),
                }
            } else {
                PageContent::Unavailable
            }
        } else if show_id == 3 {
            if self.data.anemometer_data.is_valid() {
                PageContent::WindMinMax {
                    min_mph_milli: self.current_data.get_wind_min_mph(),
                    max_mph_milli: self.current_data.get_wind_max_mph(),
                }
            } else {
                PageContent::Unavailable
            }
        } else if show_id == 4 {
            if self.data.rain_data.is_valid() {
                PageContent::RainTotals {
                    in_milli: self.current_data.get_rain_total_in(),
                    cm_milli: self.current_data.get_rain_total_cm(),
                }
            } else {
                PageContent::Unavailable
            }
        } else if show_id == 5 {
            PageContent::SystemHealth
        } else {
            PageContent::Blank
        }
    }

    /// How long the cycle may still sleep after `elapsed_ms` were already
    /// spent: the budget minus the time spent, and never less than
    /// nothing.
    pub fn sleep_budget(elapsed_ms: u64) -> (r: u64)
        ensures
            r == if elapsed_ms <= CYCLE_BUDGET_MS {
                CYCLE_BUDGET_MS - elapsed_ms
            } else {
                0int
            },
            elapsed_ms + r >= CYCLE_BUDGET_MS || r == 0,
    {
        if elapsed_ms <= CYCLE_BUDGET_MS {
            CYCLE_BUDGET_MS - elapsed_ms
        } else {
            0
        }
    }
}

} // verus!
