use vstd::prelude::*;

use crate::duration::{duration_result, parse_duration_to_ms};
use crate::error::ConfigError;
use crate::task_slot::TaskSlot;

verus! {

/// The gap between emissions when none is configured, in milliseconds.
pub const THROTTLE_TIME_DEFAULT_MS: u64 = 1000;

/// The queue bound when none is configured: keep nothing.
pub const MAX_PENDING_DEFAULT: i64 = 0;

/// A duration setting: absent keeps `current`, present must parse.
pub open spec fn duration_setting(v: Option<&str>, current: u64) -> Result<u64, ConfigError> {
    match v {
        Some(s) => duration_result(s@),
        None => Ok(current),
    }
}

/// The queue after `item` arrives during a cycle: nothing is kept when the bound
/// is zero, the oldest item leaves when a positive bound is passed, and a
/// negative bound keeps everything.
pub open spec fn enqueue<T>(q: Seq<T>, item: T, max_pending: i64) -> Seq<T> {
    if max_pending == 0 {
        q
    } else if max_pending > 0 && q.len() + 1 > max_pending {
        q.push(item).drop_first()
    } else {
        q.push(item)
    }
}

/// The queue cut down to its newest `max_pending` items; a negative bound cuts nothing.
pub open spec fn keep_newest<T>(q: Seq<T>, max_pending: i64) -> Seq<T> {
    if max_pending >= 0 && q.len() > max_pending {
        q.subrange(q.len() - max_pending, q.len() as int)
    } else {
        q
    }
}

/// What to do with a message that reaches the throttle.
pub enum Arrival<T> {
    /// No cycle was in flight: emit the message now and start a task with this
    /// token that sleeps `sleep_ms` before it wakes the throttle.
    Emit { item: T, token: u64, sleep_ms: u64 },
    /// A cycle is in flight: the message waits in the queue.
    Queued,
    /// A cycle is in flight and the queue keeps nothing: the message is dropped.
    Dropped,
}

/// What the cycle's task does when it wakes.
pub enum Wake<T> {
    /// The task has been cancelled or replaced: it exits without emitting.
    Superseded,
    /// Emit the oldest queued message, then sleep `sleep_ms` again.
    Emit { item: T, sleep_ms: u64 },
    /// Nothing waits: the cycle ends and the next message passes at once.
    Release,
}

/// A leaky bucket: at most one message per period, the rest queued or dropped.
pub struct Throttle<T> {
    time_ms: u64,
    max_pending: i64,
    pending: Vec<T>,
    slot: TaskSlot,
}

impl<T> Throttle<T> {
    /// The minimum gap between emissions, in milliseconds.
    pub closed spec fn time_ms(&self) -> u64 {
        self.time_ms
    }

    /// The queue bound: zero keeps nothing, negative keeps everything.
    pub closed spec fn max_pending(&self) -> i64 {
        self.max_pending
    }

    /// The queued messages, oldest first.
    pub closed spec fn pending(&self) -> Seq<T> {
        self.pending@
    }

    /// The token of the cycle in flight, if any.
    pub closed spec fn cycle(&self) -> Option<u64> {
        self.slot.active()
    }

    /// The slot is sound and the queue respects its bound.
    pub closed spec fn wf(&self) -> bool {
        &&& self.slot.wf()
        &&& self.max_pending >= 0 ==> self.pending@.len() <= self.max_pending
    }

    /// The queue holds no more than a non-negative bound.
    pub open spec fn bounded(&self) -> bool {
        self.max_pending() >= 0 ==> self.pending().len() <= self.max_pending()
    }

    /// Two states that hold the same settings, queue and cycle.
    pub open spec fn same(&self, other: &Throttle<T>) -> bool {
        &&& self.time_ms() == other.time_ms()
        &&& self.max_pending() == other.max_pending()
        &&& self.pending() == other.pending()
        &&& self.cycle() == other.cycle()
    }

    /// A throttle from its settings: `time` defaults to one second and
    /// `max_pending` to zero.
    pub fn new(time: Option<&str>, max_pending: Option<i64>) -> (r: Result<Throttle<T>, ConfigError>)
        ensures
            match duration_setting(time, THROTTLE_TIME_DEFAULT_MS) {
                Err(e) => r == Err::<Throttle<T>, ConfigError>(e),
                Ok(ms) => r matches Ok(t) && {
                    &&& t.wf()
                    &&& t.bounded()
                    &&& t.time_ms() == ms
                    &&& t.max_pending() == (match max_pending {
                        Some(m) => m,
                        None => MAX_PENDING_DEFAULT,
                    })
                    &&& t.pending() == Seq::<T>::empty()
                    &&& t.cycle() is None
                },
            },
    {
        let time_ms = match time {
            Some(s) => match parse_duration_to_ms(s) {
                Ok(ms) => ms,
                Err(e) => {
                    return Err(e);
                },
            },
            None => THROTTLE_TIME_DEFAULT_MS,
        };
        let max_pending = match max_pending {
            Some(m) => m,
            None => MAX_PENDING_DEFAULT,
        };
        Ok(Throttle { time_ms, max_pending, pending: Vec::new(), slot: TaskSlot::new() })
    }

    /// Whether a cycle is in flight.
    pub fn is_cycling(&self) -> (r: bool)
        ensures
            r == (self.cycle() is Some),
    {
        self.slot.is_occupied()
    }

    /// The number of queued messages.
    pub fn pending_len(&self) -> (r: usize)
        ensures
            r == self.pending().len(),
    {
        self.pending.len()
    }

    /// A message arrives. With no cycle in flight it passes at once and a cycle
    /// starts; otherwise it is queued under the bound, or dropped.
    pub fn process(&mut self, item: T) -> (r: Arrival<T>)
        requires
            old(self).wf(),
        ensures
            final(self).wf(),
            final(self).bounded(),
            final(self).time_ms() == old(self).time_ms(),
            final(self).max_pending() == old(self).max_pending(),
            old(self).cycle() is None ==> {
                &&& r matches Arrival::Emit { item: x, token, sleep_ms } && x == item && sleep_ms
                    == old(self).time_ms() && final(self).cycle() == Some(token)
                &&& final(self).pending() == old(self).pending()
            },
            old(self).cycle() is Some ==> {
                &&& final(self).cycle() == old(self).cycle()
                &&& final(self).pending() == enqueue(
                    old(self).pending(),
                    item,
                    old(self).max_pending(),
                )
                &&& if old(self).max_pending() == 0 {
                    r is Dropped
                } else {
                    r is Queued
                }
            },
    {
        if self.slot.is_occupied() {
            if self.max_pending == 0 {
                return Arrival::Dropped;
            }
            self.pending.push(item);
            assert(self.pending@ == old(self).pending@.push(item));
            if self.max_pending > 0 && self.pending.len() as u64 > self.max_pending as u64 {
                self.pending.remove(0);
                assert(self.pending@ =~= old(self).pending@.push(item).drop_first());
            } else {
                assert(self.pending@ == enqueue(old(self).pending@, item, self.max_pending));
            }
            return Arrival::Queued;
        }
        let (token, _) = self.slot.replace();
        Arrival::Emit { item, token, sleep_ms: self.time_ms }
    }

    /// The cycle's task wakes after its sleep. A superseded task exits; otherwise
    /// the oldest queued message is emitted, or the cycle ends when none waits.
    pub fn wake(&mut self, token: u64) -> (r: Wake<T>)
        requires
            old(self).wf(),
        ensures
            final(self).wf(),
            final(self).bounded(),
            final(self).time_ms() == old(self).time_ms(),
            final(self).max_pending() == old(self).max_pending(),
            old(self).cycle() != Some(token) ==> r is Superseded && final(self).same(old(self)),
            old(self).cycle() == Some(token) && old(self).pending().len() > 0 ==> {
                &&& r matches Wake::Emit { item, sleep_ms } && item == old(self).pending()[0]
                    && sleep_ms == old(self).time_ms()
                &&& final(self).pending() == old(self).pending().drop_first()
                &&& final(self).cycle() == Some(token)
            },
            old(self).cycle() == Some(token) && old(self).pending().len() == 0 ==> {
                &&& r is Release
                &&& final(self).pending() == old(self).pending()
                &&& final(self).cycle() is None
            },
    {
        if !self.slot.is_current(token) {
            return Wake::Superseded;
        }
        if self.pending.len() > 0 {
            let item = self.pending.remove(0);
            return Wake::Emit { item, sleep_ms: self.time_ms };
        }
        let _ = self.slot.cancel();
        Wake::Release
    }

    /// Stops the throttle: the cycle in flight, if any, is cancelled and its token
    /// returned for the caller to abort. The queue stays as it is.
    pub fn stop(&mut self) -> (r: Option<u64>)
        requires
            old(self).wf(),
        ensures
            final(self).wf(),
            final(self).bounded(),
            r == old(self).cycle(),
            final(self).cycle() is None,
            final(self).time_ms() == old(self).time_ms(),
            final(self).max_pending() == old(self).max_pending(),
            final(self).pending() == old(self).pending(),
    {
        self.slot.cancel()
    }

    /// Applies new settings. An absent setting keeps its value; a duration that
    /// does not parse is refused and changes nothing. A new bound drops the
    /// oldest queued messages beyond it. The cycle in flight is not disturbed.
    pub fn set_config(&mut self, time: Option<&str>, max_pending: Option<i64>) -> (r: Result<
        (),
        ConfigError,
    >)
        requires
            old(self).wf(),
        ensures
            final(self).wf(),
            final(self).bounded(),
            final(self).cycle() == old(self).cycle(),
            match duration_setting(time, old(self).time_ms()) {
                Err(e) => r == Err::<(), ConfigError>(e) && final(self).same(old(self)),
                Ok(ms) => {
                    &&& r is Ok
                    &&& final(self).time_ms() == ms
                    &&& match max_pending {
                        Some(m) => final(self).max_pending() == m && final(self).pending() == (if m
                            != old(self).max_pending() {
                            keep_newest(old(self).pending(), m)
                        } else {
                            old(self).pending()
                        }),
                        None => final(self).max_pending() == old(self).max_pending()
                            && final(self).pending() == old(self).pending(),
                    }
                },
            },
    {
        if let Some(s) = time {
            match parse_duration_to_ms(s) {
                Ok(ms) => {
                    self.time_ms = ms;
                },
                Err(e) => {
                    return Err(e);
                },
            }
        }
        if let Some(m) = max_pending {
            if m != self.max_pending {
                let len = self.pending.len();
                if m >= 0 && len as u64 > m as u64 {
                    let excess: usize = (len as u64 - m as u64) as usize;
                    let ghost before = self.pending@;
                    let ghost time_ms = self.time_ms;
                    let mut i: usize = 0;
                    while i < excess
                        invariant
                            0 <= i <= excess <= before.len(),
                            self.slot == old(self).slot,
                            self.max_pending == old(self).max_pending,
                            self.time_ms == time_ms,
                            self.pending@ == before.subrange(i as int, before.len() as int),
                        decreases excess - i,
                    {
                        self.pending.remove(0);
                        i = i + 1;
                        assert(self.pending@ =~= before.subrange(i as int, before.len() as int));
                    }
                }
                self.max_pending = m;
            }
        }
        Ok(())
    }
}

} // verus!
