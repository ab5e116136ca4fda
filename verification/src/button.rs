//! Push button wired like a pulse sensor: presses are counted per window
//! and turned into a rate in milli-presses per second on each sample.

use vstd::prelude::*;
use crate::anemometer::rate_milli;

verus! {

/// One button-rate observation, in milli-presses per second.
#[derive(Debug, Clone, Copy, PartialEq, Eq, Structural)]
pub struct IncrementalPayload {
    pub presses_per_sec_milli: u64,
    pub last_updated: u64,
}

impl IncrementalPayload {
    pub fn new(presses_per_sec_milli: u64, last_updated: u64) -> (r: Self)
        ensures
            r.presses_per_sec_milli == presses_per_sec_milli,
            r.last_updated == last_updated,
    {
        Self { presses_per_sec_milli, last_updated }
    }
}

/// The button driver: the press count of the current window, the rate of
/// the last window, and when that window ended.
pub struct Button {
    pub counter: u32,
    pub presses_per_sec_milli: u64,
    pub last_updated: u64,
}

impl Button {
    pub fn new(now_ms: u64) -> (r: Self)
        ensures
            r.counter == 0,
            r.presses_per_sec_milli == 0,
            r.last_updated == now_ms,
    {
        Self { counter: 0, presses_per_sec_milli: 0, last_updated: now_ms }
    }

    /// Called once per detected press; the count pegs at the type's
    /// maximum rather than wrapping.
    pub fn increment_counter(&mut self)
        ensures
            final(self).counter == if old(self).counter < u32::MAX {
                old(self).counter + 1
            } else {
                old(self).counter as int
            },
            final(self).presses_per_sec_milli == old(self).presses_per_sec_milli,
            final(self).last_updated == old(self).last_updated,
    {
        if self.counter < u32::MAX {
            self.counter = self.counter + 1;
        }
    }

    /// Closes the sampling window: turns the press count over the elapsed
    /// time into a rate in milli-presses/s, zeroes the counter, advances
    /// the timestamp, and hands back the payload to publish.
    pub fn update_data(&mut self, now_ms: u64) -> (p: IncrementalPayload)
        requires
            old(self).last_updated < now_ms,
        ensures
            final(self).counter == 0,
            final(self).last_updated == now_ms,
            final(self).presses_per_sec_milli == rate_milli(
                old(self).counter as int,
                now_ms - old(self).last_updated,
            ),
            p.presses_per_sec_milli == final(self).presses_per_sec_milli,
            p.last_updated == now_ms,
    {
        let elapsed_ms: u64 = now_ms - self.last_updated;
        let rate: u64 = ((self.counter as u128) * 1000000 / (elapsed_ms as u128)) as u64;
        proof {
            let c = old(self).counter as int;
            let e = now_ms - old(self).last_updated;
            assert(c * 1000000 / e <= c * 1000000) by (nonlinear_arith)
                requires
                    e >= 1,
                    c >= 0,
            ;
        }
        self.presses_per_sec_milli = rate;
        self.counter = 0;
        self.last_updated = now_ms;
        IncrementalPayload::new(rate, now_ms)
    }
}

} // verus!
