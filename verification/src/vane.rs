//! Wind vane: a resistance ladder of sixteen positions read through the
//! analog converter. The measured voltage is matched to the position whose
//! expected divider voltage lies nearest; an exact tie goes to the lower
//! index, so the match is deterministic. Directions are tenths of a degree
//! in [0, 3600), one position every 22.5 degrees.

use vstd::prelude::*;
use crate::analog::{microvolts_of_code, parse_adc_reading, raw_to_microvolts};
use crate::process::{DataPoint, DaytimeData, point_update_direction};

verus! {

/// Divider input voltage, in microvolts.
pub const VANE_INPUT_MICROVOLTS: u64 = 3300000;

/// The fixed resistor the ladder divides against, in ohms.
pub const VANE_OUTPUT_RESISTANCE: u64 = 5100;

/// Calibration offset added to every direction, in tenths of a degree.
pub const VANE_CALIBRATION_TENTHS: u16 = 0;

/// Ladder resistance of position `i`, in ohms.
pub open spec fn resistance_of(i: int) -> int {
    if i == 0 {
        33000
    } else if i == 1 {
        6570
    } else if i == 2 {
        8200
    } else if i == 3 {
        891
    } else if i == 4 {
        1000
    } else if i == 5 {
        688
    } else if i == 6 {
        2200
    } else if i == 7 {
        1410
    } else if i == 8 {
        3900
    } else if i == 9 {
        3140
    } else if i == 10 {
        16000
    } else if i == 11 {
        14120
    } else if i == 12 {
        120000
    } else if i == 13 {
        42120
    } else if i == 14 {
        64900
    } else {
        21880
    }
}

/// Expected divider voltage of position `i`, in microvolts:
/// `V = Vin * R / (R + R_fixed)`.
pub open spec fn expected_microvolts(i: int) -> int {
    VANE_INPUT_MICROVOLTS * resistance_of(i) / (resistance_of(i) + VANE_OUTPUT_RESISTANCE)
}

/// Absolute difference.
pub open spec fn abs_diff(a: int, b: int) -> int {
    if a >= b {
        a - b
    } else {
        b - a
    }
}

/// How far the measured voltage lies from position `i`'s expected voltage.
pub open spec fn vane_diff(uv: int, i: int) -> int {
    abs_diff(uv, expected_microvolts(i))
}

/// The position among the first `n` whose expected voltage lies nearest to
/// `uv`; an exact tie keeps the earlier position.
pub open spec fn best_index_upto(uv: int, n: int) -> int
    decreases n,
{
    if n <= 1 {
        0
    } else {
        let b = best_index_upto(uv, n - 1);
        if vane_diff(uv, n - 1) < vane_diff(uv, b) {
            n - 1
        } else {
            b
        }
    }
}

/// The nearest match minimizes the distance, and every strictly earlier
/// position lies strictly farther away: between two equally near positions
/// the lower index wins, so the match is deterministic.
pub proof fn lemma_nearest_match_first_wins(uv: int, n: int)
    requires
        1 <= n,
    ensures
        0 <= best_index_upto(uv, n) < n,
        forall|j: int| 0 <= j < n ==> vane_diff(uv, best_index_upto(uv, n)) <= #[trigger] vane_diff(uv, j),
        forall|j: int|
            0 <= j < best_index_upto(uv, n) ==> #[trigger] vane_diff(uv, j) > vane_diff(
                uv,
                best_index_upto(uv, n),
            ),
    decreases n,
{
    if n > 1 {
        lemma_nearest_match_first_wins(uv, n - 1);
    }
}

/// Direction of position `i`, in tenths of a degree, calibration applied
/// and wrapped into [0, 3600).
pub open spec fn direction_tenths_of(i: int) -> int {
    let d = i * 225 + VANE_CALIBRATION_TENTHS;
    if d >= 3600 {
        d - 3600
    } else {
        d
    }
}

/// Expected divider voltage of position `i`, in microvolts.
pub fn expected_microvolts_at(i: usize) -> (r: u64)
    requires
        i < 16,
    ensures
        r == expected_microvolts(i as int),
        r < VANE_INPUT_MICROVOLTS,
{
    let res: u64 = if i == 0 {
        33000
    } else if i == 1 {
        6570
    } else if i == 2 {
        8200
    } else if i == 3 {
        891
    } else if i == 4 {
        1000
    } else if i == 5 {
        688
    } else if i == 6 {
        2200
    } else if i == 7 {
        1410
    } else if i == 8 {
        3900
    } else if i == 9 {
        3140
    } else if i == 10 {
        16000
    } else if i == 11 {
        14120
    } else if i == 12 {
        120000
    } else if i == 13 {
        42120
    } else if i == 14 {
        64900
    } else {
        21880
    };
    proof {
        vstd::arithmetic::div_mod::lemma_multiply_divide_lt(
            VANE_INPUT_MICROVOLTS as int * res as int,
            res as int + VANE_OUTPUT_RESISTANCE as int,
            VANE_INPUT_MICROVOLTS as int,
        );
        assert((res as int + VANE_OUTPUT_RESISTANCE as int) * VANE_INPUT_MICROVOLTS as int
            == VANE_INPUT_MICROVOLTS as int * res as int + VANE_OUTPUT_RESISTANCE as int
            * VANE_INPUT_MICROVOLTS as int) by (nonlinear_arith);
    }
    VANE_INPUT_MICROVOLTS * res / (res + VANE_OUTPUT_RESISTANCE)
}

/// Resolves a measured voltage to a direction in tenths of a degree by
/// nearest-neighbor match over the sixteen ladder positions, ties broken
/// toward the lower index.
pub fn find_direction_by_voltage(uv: u64) -> (dir: u16)
    requires
        uv <= VANE_INPUT_MICROVOLTS,
    ensures
        dir == direction_tenths_of(best_index_upto(uv as int, 16)),
        dir < 3600,
        forall|j: int|
            0 <= j < 16 ==> vane_diff(uv as int, best_index_upto(uv as int, 16))
                <= #[trigger] vane_diff(uv as int, j),
        forall|j: int|
            0 <= j < best_index_upto(uv as int, 16) ==> #[trigger] vane_diff(uv as int, j)
                > vane_diff(uv as int, best_index_upto(uv as int, 16)),
{
    proof {
        lemma_nearest_match_first_wins(uv as int, 16);
    }
    let mut idx: usize = 0;
    let mut min_diff: u64 = 999000000;
    let mut i: usize = 0;
    while i < 16
        invariant
            uv <= VANE_INPUT_MICROVOLTS,
            i <= 16,
            idx < 16,
            i == 0 ==> idx == 0 && min_diff == 999000000,
            i >= 1 ==> {
                &&& idx == best_index_upto(uv as int, i as int)
                &&& min_diff == vane_diff(uv as int, idx as int)
                &&& idx < i
            },
        decreases 16 - i,
    {
        let expected = expected_microvolts_at(i);
        let diff: u64 = if uv >= expected {
            uv - expected
        } else {
            expected - uv
        };
        if diff < min_diff {
            idx = i;
            min_diff = diff;
        }
        i = i + 1;
    }
    let dir: u16 = (idx as u16) * 225 + VANE_CALIBRATION_TENTHS;
    if dir >= 3600 {
        dir - 3600
    } else {
        dir
    }
}

/// Compass label of a 22.5-degree sector.
pub open spec fn direction_label(sector: int) -> Seq<char> {
    if sector == 0 {
        "N"@
    } else if sector == 1 {
        "NNE"@
    } else if sector == 2 {
        "NE"@
    } else if sector == 3 {
        "ENE"@
    } else if sector == 4 {
        "E"@
    } else if sector == 5 {
        "ESE"@
    } else if sector == 6 {
        "SE"@
    } else if sector == 7 {
        "SSE"@
    } else if sector == 8 {
        "S"@
    } else if sector == 9 {
        "SSW"@
    } else if sector == 10 {
        "SW"@
    } else if sector == 11 {
        "WSW"@
    } else if sector == 12 {
        "W"@
    } else if sector == 13 {
        "WNW"@
    } else if sector == 14 {
        "NW"@
    } else {
        "NNW"@
    }
}

/// One wind-direction reading, in tenths of a degree, with the timestamp
/// of the sample. A missing timestamp is the sole validity flag.
#[derive(Debug, Clone, Copy, PartialEq, Eq, Structural)]
pub struct WindVaneData {
    pub direction_tenths: u16,
    pub last_updated: Option<u64>,
}

impl WindVaneData {
    pub fn new(direction_tenths: u16, last_updated: Option<u64>) -> (r: Self)
        ensures
            r.direction_tenths == direction_tenths,
            r.last_updated == last_updated,
    {
        Self { direction_tenths, last_updated }
    }

    /// A reading is valid exactly when it carries a timestamp.
    pub fn is_valid(&self) -> (r: bool)
        ensures
            r == (self.last_updated is Some),
    {
        self.last_updated.is_some()
    }

    pub fn get_last_updated(&self) -> (r: Option<u64>)
        ensures
            r == self.last_updated,
    {
        self.last_updated
    }

    pub fn get_direction(&self) -> (r: u16)
        ensures
            r == self.direction_tenths,
    {
        self.direction_tenths
    }

    /// The compass abbreviation of this direction's 22.5-degree sector.
    pub fn get_dir_as_string(&self) -> (r: String)
        requires
            self.direction_tenths < 3600,
        ensures
            r@ == direction_label(self.direction_tenths as int / 225),
    {
        let sector: u16 = self.direction_tenths / 225;
        if sector == 0 {
            "N".to_owned()
        } else if sector == 1 {
            "NNE".to_owned()
        } else if sector == 2 {
            "NE".to_owned()
        } else if sector == 3 {
            "ENE".to_owned()
        } else if sector == 4 {
            "E".to_owned()
        } else if sector == 5 {
            "ESE".to_owned()
        } else if sector == 6 {
            "SE".to_owned()
        } else if sector == 7 {
            "SSE".to_owned()
        } else if sector == 8 {
            "S".to_owned()
        } else if sector == 9 {
            "SSW".to_owned()
        } else if sector == 10 {
            "SW".to_owned()
        } else if sector == 11 {
            "WSW".to_owned()
        } else if sector == 12 {
            "W".to_owned()
        } else if sector == 13 {
            "WNW".to_owned()
        } else if sector == 14 {
            "NW".to_owned()
        } else {
            "NNW".to_owned()
        }
    }
}

/// A wind-direction payload: applying it replaces the snapshot's vane
/// reading and leaves the day rollup untouched.
#[derive(Debug, Clone, Copy, PartialEq, Eq, Structural)]
pub struct WindVanePayload {
    pub data: WindVaneData,
}

impl WindVanePayload {
    pub fn new(direction_tenths: u16, last_updated: Option<u64>) -> (r: Self)
        ensures
            r.data.direction_tenths == direction_tenths,
            r.data.last_updated == last_updated,
    {
        Self { data: WindVaneData::new(direction_tenths, last_updated) }
    }

    /// Stores the reading as the snapshot's current wind direction; the
    /// day rollup keeps no directional statistics.
    pub fn update_data_fields(&self, data: &mut DataPoint, daytime_info: &mut DaytimeData)
        ensures
            *final(data) == point_update_direction(*old(data), self.data),
            *final(daytime_info) == *old(daytime_info),
    {
        data.update_direction(self.data);
    }
}

/// The wind-vane driver: the last measured voltage in microvolts and the
/// direction it resolved to, in tenths of a degree.
pub struct WindVane {
    pub voltage_microvolts: u64,
    pub direction_tenths: u16,
}

impl WindVane {
    pub fn new() -> (r: Self)
        ensures
            r.voltage_microvolts == 0,
            r.direction_tenths == 0,
    {
        Self { voltage_microvolts: 0, direction_tenths: 0 }
    }

    /// Decodes a converter answer into a voltage and resolves the nearest
    /// ladder position.
    pub fn parse_bits(&mut self, buf: &Vec<u8>, bytes_read: usize)
        requires
            3 <= bytes_read <= buf@.len(),
        ensures
            final(self).voltage_microvolts == microvolts_of_code(
                crate::analog::adc_code_of(buf@[1], buf@[2]),
            ),
            final(self).direction_tenths == direction_tenths_of(
                best_index_upto(final(self).voltage_microvolts as int, 16),
            ),
            final(self).direction_tenths < 3600,
    {
        let raw = parse_adc_reading(buf, bytes_read);
        self.voltage_microvolts = raw_to_microvolts(raw);
        self.direction_tenths = find_direction_by_voltage(self.voltage_microvolts);
    }

    /// One scheduled sample on an already-transferred converter answer:
    /// decodes it and hands back the payload to publish.
    pub fn update_data(&mut self, buf: &Vec<u8>, bytes_read: usize, now_ms: u64) -> (p:
        WindVanePayload)
        requires
            3 <= bytes_read <= buf@.len(),
        ensures
            final(self).voltage_microvolts == microvolts_of_code(
                crate::analog::adc_code_of(buf@[1], buf@[2]),
            ),
            final(self).direction_tenths == direction_tenths_of(
                best_index_upto(final(self).voltage_microvolts as int, 16),
            ),
            p.data.direction_tenths == final(self).direction_tenths,
            p.data.last_updated == Some(now_ms),
    {
        self.parse_bits(buf, bytes_read);
        WindVanePayload::new(self.direction_tenths, Some(now_ms))
    }
}

} // verus!
