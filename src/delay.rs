use vstd::prelude::*;

verus! {

/// The delay when none is configured, in milliseconds.
pub const DELAY_DEFAULT_MS: i64 = 1000;

/// The bound on deliveries in flight when none is configured.
pub const MAX_IN_FLIGHT_DEFAULT: i64 = 10;

/// An integer setting, or its default when absent.
pub open spec fn setting_or(v: Option<i64>, default: i64) -> i64 {
    match v {
        Some(x) => x,
        None => default,
    }
}

/// How long to sleep for a configured delay: the setting, one second when
/// absent; a negative delay counts as none.
pub fn delay_setting_ms(delay: Option<i64>) -> (r: u64)
    ensures
        r == (if setting_or(delay, DELAY_DEFAULT_MS) < 0 {
            0
        } else {
            setting_or(delay, DELAY_DEFAULT_MS)
        }),
{
    let d = match delay {
        Some(d) => d,
        None => DELAY_DEFAULT_MS,
    };
    if d < 0 {
        0
    } else {
        d as u64
    }
}

/// The configured bound on deliveries in flight, ten when absent.
pub fn max_in_flight_setting(max_in_flight: Option<i64>) -> (r: i64)
    ensures
        r == setting_or(max_in_flight, MAX_IN_FLIGHT_DEFAULT),
{
    match max_in_flight {
        Some(m) => m,
        None => MAX_IN_FLIGHT_DEFAULT,
    }
}

/// Something that happens to the deliveries in flight.
pub enum GateEvent {
    /// A message arrives and asks to be delayed.
    Arrive,
    /// A delayed message has been delivered.
    Finish,
}

/// The number in flight after one event, under the bound `max_in_flight`: an
/// arrival is let in only below the bound, and a delivery lowers a positive count.
pub open spec fn gate_step(count: int, max_in_flight: int, event: GateEvent) -> int {
    match event {
        GateEvent::Arrive => if count < max_in_flight {
            count + 1
        } else {
            count
        },
        GateEvent::Finish => if count > 0 {
            count - 1
        } else {
            count
        },
    }
}

/// The number in flight after a run of events, starting from none.
pub open spec fn gate_run(max_in_flight: int, events: Seq<GateEvent>) -> int
    decreases events.len(),
{
    if events.len() == 0 {
        0
    } else {
        gate_step(gate_run(max_in_flight, events.drop_last()), max_in_flight, events.last())
    }
}

/// However messages arrive and are delivered, no more than `max_in_flight`
/// deliveries are ever in flight (none at all when the bound is not positive),
/// and the count never goes below zero.
pub proof fn lemma_in_flight_bounded(max_in_flight: i64, events: Seq<GateEvent>)
    ensures
        0 <= gate_run(max_in_flight as int, events),
        gate_run(max_in_flight as int, events) <= max_in_flight || gate_run(
            max_in_flight as int,
            events,
        ) == 0,
    decreases events.len(),
{
    if events.len() > 0 {
        lemma_in_flight_bounded(max_in_flight, events.drop_last());
    }
}

/// Counts the delayed deliveries in flight and turns arrivals away at the bound.
pub struct DelayGate {
    in_flight: i64,
}

impl DelayGate {
    /// The number of deliveries in flight.
    pub closed spec fn in_flight(&self) -> int {
        self.in_flight as int
    }

    /// The count is never negative.
    pub closed spec fn wf(&self) -> bool {
        self.in_flight >= 0
    }

    /// No delivery in flight.
    pub fn new() -> (r: DelayGate)
        ensures
            r.wf(),
            r.in_flight() == 0,
    {
        DelayGate { in_flight: 0 }
    }

    /// The number of deliveries in flight.
    pub fn count(&self) -> (r: i64)
        ensures
            r == self.in_flight(),
    {
        self.in_flight
    }

    /// A message arrives: it is let in, and counted, only while fewer than
    /// `max_in_flight` deliveries are in flight; otherwise it is dropped.
    pub fn try_enter(&mut self, max_in_flight: i64) -> (r: bool)
        requires
            old(self).wf(),
        ensures
            final(self).wf(),
            final(self).in_flight() >= 0,
            r == (old(self).in_flight() < max_in_flight),
            final(self).in_flight() == gate_step(
                old(self).in_flight(),
                max_in_flight as int,
                GateEvent::Arrive,
            ),
    {
        if self.in_flight >= max_in_flight {
            return false;
        }
        self.in_flight = self.in_flight + 1;
        true
    }

    /// A delayed message has been delivered.
    pub fn finish(&mut self)
        requires
            old(self).wf(),
        ensures
            final(self).wf(),
            final(self).in_flight() >= 0,
            final(self).in_flight() == gate_step(old(self).in_flight(), 0, GateEvent::Finish),
    {
        if self.in_flight > 0 {
            self.in_flight = self.in_flight - 1;
        }
    }
}

} // verus!
