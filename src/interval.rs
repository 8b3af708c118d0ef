use vstd::prelude::*;

use crate::duration::parse_duration_to_ms;
use crate::error::ConfigError;
use crate::task_slot::{SlotChange, TaskSlot};
use crate::throttle::duration_setting;

verus! {

/// The period when none is configured, in milliseconds.
pub const INTERVAL_DEFAULT_MS: u64 = 10_000;

/// Emits a unit signal every period while it runs.
pub struct IntervalTimer {
    interval_ms: u64,
    running: bool,
    slot: TaskSlot,
}

impl IntervalTimer {
    /// The period, in milliseconds.
    pub closed spec fn interval_ms(&self) -> u64 {
        self.interval_ms
    }

    /// Whether the host has started the timer and not stopped it since.
    pub closed spec fn running(&self) -> bool {
        self.running
    }

    /// The token of the ticking task, if any.
    pub closed spec fn task(&self) -> Option<u64> {
        self.slot.active()
    }

    /// The task slot is sound.
    pub closed spec fn wf(&self) -> bool {
        self.slot.wf()
    }

    /// A stopped timer whose period is `interval`, ten seconds when absent.
    pub fn new(interval: Option<&str>) -> (r: Result<IntervalTimer, ConfigError>)
        ensures
            match duration_setting(interval, INTERVAL_DEFAULT_MS) {
                Err(e) => r == Err::<IntervalTimer, ConfigError>(e),
                Ok(ms) => r matches Ok(t) && t.wf() && t.interval_ms() == ms && !t.running()
                    && t.task() is None,
            },
    {
        let interval_ms = match interval {
            Some(s) => match parse_duration_to_ms(s) {
                Ok(ms) => ms,
                Err(e) => {
                    return Err(e);
                },
            },
            None => INTERVAL_DEFAULT_MS,
        };
        Ok(IntervalTimer { interval_ms, running: false, slot: TaskSlot::new() })
    }

    /// The period, in milliseconds.
    pub fn period_ms(&self) -> (r: u64)
        ensures
            r == self.interval_ms(),
    {
        self.interval_ms
    }

    /// Starts ticking: a new task replaces the one in the slot, if any.
    pub fn start(&mut self) -> (r: SlotChange)
        requires
            old(self).wf(),
        ensures
            final(self).wf(),
            final(self).running(),
            final(self).interval_ms() == old(self).interval_ms(),
            r matches SlotChange::Started { token, abort } && final(self).task() == Some(token)
                && abort == old(self).task() && abort != Some(token),
    {
        self.running = true;
        let (token, abort) = self.slot.replace();
        SlotChange::Started { token, abort }
    }

    /// Stops ticking; returns the token of the task to abort, if any.
    pub fn stop(&mut self) -> (r: Option<u64>)
        requires
            old(self).wf(),
        ensures
            final(self).wf(),
            !final(self).running(),
            final(self).task() is None,
            final(self).interval_ms() == old(self).interval_ms(),
            r == old(self).task(),
    {
        self.running = false;
        self.slot.cancel()
    }

    /// A new period. A value that does not parse changes nothing. A changed period
    /// restarts a running timer; an unchanged or absent one changes nothing.
    pub fn set_config(&mut self, interval: Option<&str>) -> (r: Result<SlotChange, ConfigError>)
        requires
            old(self).wf(),
        ensures
            final(self).wf(),
            final(self).running() == old(self).running(),
            match duration_setting(interval, old(self).interval_ms()) {
                Err(e) => r == Err::<SlotChange, ConfigError>(e) && final(self).interval_ms()
                    == old(self).interval_ms() && final(self).task() == old(self).task(),
                Ok(ms) => {
                    &&& final(self).interval_ms() == ms
                    &&& if ms != old(self).interval_ms() && old(self).running() {
                        r matches Ok(SlotChange::Started { token, abort }) && final(self).task()
                            == Some(token) && abort == old(self).task() && abort != Some(token)
                    } else {
                        r matches Ok(SlotChange::Unchanged) && final(self).task() == old(
                            self,
                        ).task()
                    }
                },
            },
    {
        if let Some(s) = interval {
            let ms = match parse_duration_to_ms(s) {
                Ok(ms) => ms,
                Err(e) => {
                    return Err(e);
                },
            };
            if ms != self.interval_ms {
                self.interval_ms = ms;
                if self.running {
                    let (token, abort) = self.slot.replace();
                    return Ok(SlotChange::Started { token, abort });
                }
            }
        }
        Ok(SlotChange::Unchanged)
    }

    /// The task with this token has slept one period: whether it emits now.
    /// A task that was stopped or replaced does not.
    pub fn tick(&self, token: u64) -> (r: bool)
        ensures
            r == (self.task() == Some(token)),
    {
        self.slot.is_current(token)
    }
}

} // verus!
