//! Periodic trigger scheduler: fixed-cadence jobs that fire control events
//! when polled. The scheduler owns no sensor state; on each tick it reports
//! which events are due and advances every due job to its next deadline
//! after now, keeping the deadline on the job's own grid.

use vstd::prelude::*;
use crate::events::{Event, EventType};

verus! {

/// Milliseconds in a day, the grid of the midnight rollover job.
pub const DAY_MS: u64 = 86400000;

/// Deadlines and times stay below this bound so that advancing a deadline
/// past `now` can never overflow.
pub const TIME_LIMIT_MS: u64 = 0x4000000000000000;

/// Periods are at least one millisecond and at most this bound.
pub const PERIOD_LIMIT_MS: u64 = 0x100000000;

/// One fixed-cadence job: every `period_ms` it fires an event of its kind.
#[derive(Debug, Clone, Copy, PartialEq, Eq, Structural)]
pub struct Job {
    pub period_ms: u64,
    pub next_due_ms: u64,
    pub event_type: EventType,
}

/// A job's period and deadline stay inside the bounds that keep deadline
/// arithmetic overflow-free.
pub open spec fn job_wf(j: Job) -> bool {
    &&& 1 <= j.period_ms <= PERIOD_LIMIT_MS
    &&& j.next_due_ms < TIME_LIMIT_MS
}

/// A job after one poll at `now`: an undue job is untouched; a due job's
/// deadline moves to the first grid point after `now`.
pub open spec fn job_after_tick(j: Job, now: int) -> Job {
    if j.next_due_ms > now {
        j
    } else {
        Job {
            next_due_ms: (j.next_due_ms + ((now - j.next_due_ms) / (j.period_ms as int) + 1)
                * (j.period_ms as int)) as u64,
            ..j
        }
    }
}

/// The events fired by one poll at `now`: one per due job, in job order.
pub open spec fn fired_events(jobs: Seq<Job>, now: int) -> Seq<Event>
    decreases jobs.len(),
{
    if jobs.len() == 0 {
        Seq::empty()
    } else {
        fired_events(jobs.drop_last(), now) + if jobs.last().next_due_ms <= now {
            seq![Event { event_type: jobs.last().event_type }]
        } else {
            Seq::empty()
        }
    }
}

/// The cron-style trigger source: a fixed set of periodic jobs, polled on
/// a short cadence by the main loop.
pub struct Scheduler {
    pub jobs: Vec<Job>,
}

/// All of a scheduler's jobs are well-formed.
pub open spec fn sched_wf(s: Scheduler) -> bool {
    forall|i: int| 0 <= i < s.jobs@.len() ==> job_wf(#[trigger] s.jobs@[i])
}

impl Scheduler {
    pub fn new() -> (r: Self)
        ensures
            r.jobs@.len() == 0,
            sched_wf(r),
    {
        Self { jobs: Vec::new() }
    }

    /// Registers a job that first fires at `first_due_ms` and every
    /// `period_ms` after that.
    pub fn add(&mut self, period_ms: u64, first_due_ms: u64, event_type: EventType)
        requires
            1 <= period_ms <= PERIOD_LIMIT_MS,
            first_due_ms < TIME_LIMIT_MS,
            sched_wf(*old(self)),
        ensures
            final(self).jobs@ == old(self).jobs@.push(
                Job { period_ms, next_due_ms: first_due_ms, event_type },
            ),
            sched_wf(*final(self)),
    {
        self.jobs.push(Job { period_ms, next_due_ms: first_due_ms, event_type });
    }

    /// One poll: returns the events of every job whose deadline has come,
    /// in job order, and moves each such deadline to the first grid point
    /// after `now`. Undue jobs are untouched, so nothing fires twice and
    /// nothing is lost.
    pub fn tick(&mut self, now_ms: u64) -> (fired: Vec<Event>)
        requires
            sched_wf(*old(self)),
            now_ms + PERIOD_LIMIT_MS < TIME_LIMIT_MS,
        ensures
            sched_wf(*final(self)),
            final(self).jobs@.len() == old(self).jobs@.len(),
            forall|i: int|
                0 <= i < old(self).jobs@.len() ==> final(self).jobs@[i] == job_after_tick(
                    #[trigger] old(self).jobs@[i],
                    now_ms as int,
                ),
            fired@ == fired_events(old(self).jobs@, now_ms as int),
            forall|i: int|
                0 <= i < old(self).jobs@.len() ==> #[trigger] final(self).jobs@[i].next_due_ms
                    > now_ms,
    {
        let ghost jobs0 = self.jobs@;
        let mut fired: Vec<Event> = Vec::new();
        let mut i: usize = 0;
        proof {
            assert(jobs0.subrange(0, 0) =~= Seq::<Job>::empty());
        }
        while i < self.jobs.len()
            invariant
                sched_wf(*old(self)),
                jobs0 == old(self).jobs@,
                self.jobs@.len() == jobs0.len(),
                i <= jobs0.len(),
                now_ms + PERIOD_LIMIT_MS < TIME_LIMIT_MS,
                forall|k: int| i <= k < jobs0.len() ==> self.jobs@[k] == #[trigger] jobs0[k],
                forall|k: int|
                    0 <= k < i ==> self.jobs@[k] == job_after_tick(
                        #[trigger] jobs0[k],
                        now_ms as int,
                    ),
                forall|k: int| 0 <= k < i ==> #[trigger] self.jobs@[k].next_due_ms > now_ms,
                forall|k: int| 0 <= k < i ==> job_wf(#[trigger] self.jobs@[k]),
                fired@ == fired_events(jobs0.subrange(0, i as int), now_ms as int),
            decreases self.jobs@.len() - i,
        {
            let j = self.jobs[i];
            proof {
                assert(j == old(self).jobs@[i as int]);
                assert(job_wf(old(self).jobs@[i as int]));
            }
            if j.next_due_ms <= now_ms {
                fired.push(Event::new(j.event_type));
                let gap: u64 = now_ms - j.next_due_ms;
                let steps: u64 = gap / j.period_ms + 1;
                proof {
                    let g = gap as int;
                    let p = j.period_ms as int;
                    vstd::arithmetic::div_mod::lemma_fundamental_div_mod(g, p);
                    assert((g / p + 1) * p == (g / p) * p + p) by (nonlinear_arith);
                    assert(p * (g / p) == (g / p) * p) by (nonlinear_arith);
                }
                let advance: u64 = steps * j.period_ms;
                let due2: u64 = j.next_due_ms + advance;
                self.jobs[i] = Job { period_ms: j.period_ms, next_due_ms: due2, event_type: j.event_type };
            }
            i = i + 1;
            proof {
                assert(jobs0.subrange(0, i as int).drop_last() =~= jobs0.subrange(
                    0,
                    i as int - 1,
                ));
                assert(jobs0.subrange(0, i as int).last() == jobs0[i as int - 1]);
            }
        }
        proof {
            assert(jobs0.subrange(0, jobs0.len() as int) =~= jobs0);
        }
        fired
    }

    /// The first midnight after `now`, the deadline of the daily rollover.
    pub fn next_midnight(now_ms: u64) -> (r: u64)
        requires
            now_ms < TIME_LIMIT_MS,
        ensures
            r == (now_ms as int / DAY_MS as int + 1) * DAY_MS as int,
            r > now_ms,
            r <= now_ms + DAY_MS,
            r as int % DAY_MS as int == 0,
    {
        let days: u64 = now_ms / DAY_MS + 1;
        proof {
            let n = now_ms as int;
            let d = DAY_MS as int;
            vstd::arithmetic::div_mod::lemma_fundamental_div_mod(n, d);
            assert((n / d + 1) * d == d * (n / d) + d) by (nonlinear_arith);
            vstd::arithmetic::div_mod::lemma_mod_multiples_basic(n / d + 1, d);
        }
        days * DAY_MS
    }

    /// Which calendar day a timestamp falls in, counted in whole days.
    pub fn day_index(now_ms: u64) -> (r: u64)
        ensures
            r == now_ms as int / DAY_MS as int,
    {
        now_ms / DAY_MS
    }
}

} // verus!
