//! Copy-on-read cache for external readers: the status surface reads a
//! value copy of the snapshot and the day rollup, never a live reference
//! into the aggregator's state. The shell may guard one instance with a
//! short-lived lock; the cache itself is plain owned state.

use vstd::prelude::*;
use crate::process::{DataPoint, DaytimeData, day_fresh, point_default};

verus! {

/// The latest published snapshot and day rollup, as values.
#[derive(Debug, Clone, Copy)]
pub struct ApiCache {
    pub daytime: DaytimeData,
    pub latest: DataPoint,
}

impl ApiCache {
    pub fn new(today: u64) -> (r: Self)
        ensures
            r.daytime == day_fresh(today, None),
            r.latest == point_default(),
    {
        Self { daytime: DaytimeData::new(today, None), latest: DataPoint::new() }
    }

    pub fn update_daytime_data(&mut self, daytime: DaytimeData)
        ensures
            final(self).daytime == daytime,
            final(self).latest == old(self).latest,
    {
        self.daytime = daytime;
    }

    pub fn update_latest_data(&mut self, latest: DataPoint)
        ensures
            final(self).latest == latest,
            final(self).daytime == old(self).daytime,
    {
        self.latest = latest;
    }

    /// Replaces whichever of the two values the caller publishes anew.
    pub fn update_api_cache(&mut self, daytime: Option<DaytimeData>, latest: Option<DataPoint>)
        ensures
            final(self).daytime == if daytime is Some {
                daytime->0
            } else {
                old(self).daytime
            },
            final(self).latest == if latest is Some {
                latest->0
            } else {
                old(self).latest
            },
    {
        if let Some(d) = daytime {
            self.daytime = d;
        }
        if let Some(l) = latest {
            self.latest = l;
        }
    }

    /// A value copy of the day rollup for an external reader.
    pub fn get_daytime_data(&self) -> (r: DaytimeData)
        ensures
            r == self.daytime,
    {
        self.daytime
    }

    /// A value copy of the snapshot for an external reader.
    pub fn get_latest_data(&self) -> (r: DataPoint)
        ensures
            r == self.latest,
    {
        self.latest
    }
}

} // verus!
