//! Control events: cheap, copyable tags that request an action from the
//! dispatch loop. They carry no sensor data; readings travel separately as
//! payloads, so the two streams are only FIFO within themselves.

use vstd::prelude::*;

verus! {

/// The kinds of control signals that producers (scheduler jobs, interrupt
/// callbacks, sensors) may post for the dispatch loop.
#[derive(Debug, Clone, Copy, PartialEq, Eq, Structural)]
pub enum EventType {
    UpdateData,
    UpdateRain,
    UpdateWind,
    UpdateTemp,
    MidnightRefresh,
    AnemometerCount,
    RainCount,
    UpdateDataCache,
    Exit,
}

/// A tagged, payload-free control signal.
#[derive(Debug, Clone, Copy, PartialEq, Eq, Structural)]
pub struct Event {
    pub event_type: EventType,
}

impl Event {
    pub fn new(event_type: EventType) -> (r: Self)
        ensures
            r.event_type == event_type,
    {
        Self { event_type }
    }

    pub fn get_event_type(&self) -> (r: EventType)
        ensures
            r == self.event_type,
    {
        self.event_type
    }
}

/// A payload that carries no reading and changes nothing when applied.
#[derive(Debug, Clone, Copy, PartialEq, Eq, Structural)]
pub struct EmptyPayload {}

impl EmptyPayload {
    pub fn new() -> (r: Self)
        ensures
            r == (EmptyPayload {}),
    {
        Self {}
    }
}

} // verus!
