use vstd::prelude::*;

use crate::duration::{char_is_space, skip_space};
use crate::error::ConfigError;
use crate::task_slot::{SlotChange, TaskSlot};

verus! {

/// cron's compiled schedule, carried through opaque.
#[verifier::external_type_specification]
#[verifier::external_body]
pub struct ExSchedule(cron::Schedule);

/// cron's parse error, mapped to `ConfigError::InvalidSchedule`.
#[verifier::external_type_specification]
#[verifier::external_body]
pub struct ExCronError(cron::error::Error);

/// Whether the cron crate accepts `expr` as a schedule.
pub uninterp spec fn cron_accepts(expr: Seq<char>) -> bool;

/// Relies on cron's `Schedule::from_str`: it compiles a cron expression, and
/// whether it succeeds depends on the text alone.
#[verifier::external_body]
fn compile_cron(expr: &str) -> (r: Result<cron::Schedule, cron::error::Error>)
    ensures
        r is Ok == cron_accepts(expr@),
{
    <cron::Schedule as std::str::FromStr>::from_str(expr)
}

/// The latest instant, in milliseconds since the epoch, from which the next
/// scheduled instant is sought: the end of the year 9999.
pub const LATEST_INSTANT_MS: i64 = 253_402_300_799_999;

/// The first instant, in milliseconds since the epoch, strictly after
/// `after_ms` that the cron expression `expr` matches, in UTC.
pub uninterp spec fn cron_next(expr: Seq<char>, after_ms: i64) -> Option<i64>;

/// Relies on cron's `Schedule::after`, whose first item is the first instant that
/// the schedule matches strictly after the given one (its search starts one second
/// later); the result depends on the expression and the instant alone. The
/// expression is compiled with `Schedule::from_str`, and chrono's
/// `DateTime::from_timestamp_millis` and `DateTime::timestamp_millis` convert the
/// instants from and to milliseconds since the epoch, in UTC.
#[verifier::external_body]
fn next_cron_instant(expr: &str, now_ms: i64) -> (r: Option<i64>)
    requires
        cron_accepts(expr@),
        -LATEST_INSTANT_MS <= now_ms <= LATEST_INSTANT_MS,
    ensures
        r == cron_next(expr@, now_ms),
        r matches Some(t) ==> t > now_ms,
{
    let schedule = match <cron::Schedule as std::str::FromStr>::from_str(expr) {
        Ok(schedule) => schedule,
        Err(_) => return None,
    };
    match chrono::DateTime::from_timestamp_millis(now_ms) {
        Some(now) => match schedule.after(&now).next() {
            Some(t) => Some(t.timestamp_millis()),
            None => None,
        },
        None => None,
    }
}

/// How long the loop sleeps when the wait until the next instant cannot be
/// computed, in milliseconds.
pub const RETRY_DELAY_MS: u64 = 60_000;

/// What the schedule loop does next.
pub enum CronStep {
    /// Sleep `wait_ms`, until the instant `at_ms`, then emit.
    Wait { at_ms: i64, wait_ms: u64 },
    /// The next instant lies in the past: sleep `wait_ms` and plan again,
    /// without emitting.
    Retry { wait_ms: u64 },
    /// No instant is left: the loop ends.
    Finished,
}

/// The step that follows from the next matching instant, as seen at `now_ms`.
pub open spec fn cron_step_spec(next: Option<i64>, now_ms: i64) -> CronStep {
    match next {
        None => CronStep::Finished,
        Some(t) => if t >= now_ms {
            CronStep::Wait { at_ms: t, wait_ms: (t - now_ms) as u64 }
        } else {
            CronStep::Retry { wait_ms: RETRY_DELAY_MS }
        },
    }
}

/// Plans the schedule loop's next step from the next matching instant.
pub fn cron_step(next: Option<i64>, now_ms: i64) -> (r: CronStep)
    ensures
        r == cron_step_spec(next, now_ms),
{
    match next {
        None => CronStep::Finished,
        Some(t) => {
            if t >= now_ms {
                CronStep::Wait { at_ms: t, wait_ms: (t as i128 - now_ms as i128) as u64 }
            } else {
                CronStep::Retry { wait_ms: RETRY_DELAY_MS }
            }
        },
    }
}

/// The text holds nothing but white space.
pub open spec fn is_blank(s: Seq<char>) -> bool {
    skip_space(s, 0) == s.len()
}

fn text_is_blank(s: &str) -> (r: bool)
    ensures
        r == is_blank(s@),
{
    let n = s.unicode_len();
    let mut i: usize = 0;
    while i < n && char_is_space(s.get_char(i))
        invariant
            n == s@.len(),
            i <= n,
            skip_space(s@, i as int) == skip_space(s@, 0),
        decreases n - i,
    {
        i = i + 1;
    }
    i == n
}

/// The expression that a configured text puts in force: none when blank.
pub open spec fn source_of(expr: Seq<char>) -> Option<Seq<char>> {
    if is_blank(expr) {
        None
    } else {
        Some(expr)
    }
}

/// Checks a configured text: a blank one turns scheduling off (`None`), any other
/// must compile, and is kept as the expression in force.
fn parse_schedule(expr: &str) -> (r: Result<Option<String>, ConfigError>)
    ensures
        match source_of(expr@) {
            None => r matches Ok(None),
            Some(s) => if cron_accepts(s) {
                r matches Ok(Some(t)) && t@ == s
            } else {
                r == Err::<Option<String>, ConfigError>(ConfigError::InvalidSchedule)
            },
        },
{
    if text_is_blank(expr) {
        return Ok(None);
    }
    match compile_cron(expr) {
        Ok(_) => Ok(Some(expr.to_owned())),
        Err(_) => Err(ConfigError::InvalidSchedule),
    }
}

/// Emits the current time at each instant that a cron expression matches.
pub struct ScheduleTimer {
    source: Option<String>,
    running: bool,
    slot: TaskSlot,
    last_fired: Option<i64>,
}

impl ScheduleTimer {
    /// The expression of the schedule in force; none when scheduling is off.
    pub closed spec fn source(&self) -> Option<Seq<char>> {
        match self.source {
            Some(s) => Some(s@),
            None => None,
        }
    }

    /// Whether the host has started the timer and not stopped it since.
    pub closed spec fn running(&self) -> bool {
        self.running
    }

    /// The token of the scheduling task, if any.
    pub closed spec fn task(&self) -> Option<u64> {
        self.slot.active()
    }

    /// The latest instant at which the timer has emitted, if any.
    pub closed spec fn last_fired(&self) -> Option<i64> {
        self.last_fired
    }

    /// The task slot is sound, and the timer is consistent.
    pub closed spec fn wf(&self) -> bool {
        &&& self.slot.wf()
        &&& self.consistent()
    }

    /// The expression in force compiles and is not blank, and a task runs only
    /// while the timer runs with an expression in force.
    pub open spec fn consistent(&self) -> bool {
        &&& self.source() matches Some(s) ==> cron_accepts(s) && !is_blank(s)
        &&& self.task() is Some ==> self.running() && self.source() is Some
    }

    /// The instant from which the next one is sought at `now_ms`: now, or the
    /// last instant emitted when the clock has not yet passed it.
    pub open spec fn plan_from(&self, now_ms: i64) -> i64 {
        match self.last_fired() {
            Some(l) => if l > now_ms {
                l
            } else {
                now_ms
            },
            None => now_ms,
        }
    }

    /// A stopped timer; `schedule`, when present and not blank, must compile.
    pub fn new(schedule: Option<&str>) -> (r: Result<ScheduleTimer, ConfigError>)
        ensures
            match schedule {
                None => r matches Ok(t) && t.wf() && t.consistent() && t.source() is None
                    && !t.running() && t.task() is None && t.last_fired() is None,
                Some(s) => if source_of(s@) is None || cron_accepts(s@) {
                    r matches Ok(t) && t.wf() && t.consistent() && t.source() == source_of(s@)
                        && !t.running() && t.task() is None && t.last_fired() is None
                } else {
                    r == Err::<ScheduleTimer, ConfigError>(ConfigError::InvalidSchedule)
                },
            },
    {
        let source = match schedule {
            Some(s) => match parse_schedule(s) {
                Ok(source) => source,
                Err(e) => {
                    return Err(e);
                },
            },
            None => None,
        };
        Ok(ScheduleTimer { source, running: false, slot: TaskSlot::new(), last_fired: None })
    }

    /// Whether an expression is in force.
    pub fn has_schedule(&self) -> (r: bool)
        ensures
            r == (self.source() is Some),
    {
        self.source.is_some()
    }

    /// Whether the text in force is `expr`, blank texts counting as none.
    fn same_source(&self, expr: &str) -> (r: bool)
        ensures
            r == (self.source() == source_of(expr@)),
    {
        let blank = text_is_blank(expr);
        match &self.source {
            None => blank,
            Some(current) => {
                if blank {
                    false
                } else {
                    let text = expr.to_owned();
                    *current == text
                }
            },
        }
    }

    /// Starts the timer: with a schedule in force, a new scheduling task
    /// replaces the one in the slot, if any; without one, no task runs.
    pub fn start(&mut self) -> (r: SlotChange)
        requires
            old(self).wf(),
        ensures
            final(self).wf(),
            final(self).consistent(),
            final(self).running(),
            final(self).source() == old(self).source(),
            final(self).last_fired() == old(self).last_fired(),
            old(self).source() is Some ==> (r matches SlotChange::Started { token, abort }
                && final(self).task() == Some(token) && abort == old(self).task() && abort
                != Some(token)),
            old(self).source() is None ==> (r matches SlotChange::Stopped { abort } && abort
                == old(self).task() && final(self).task() is None),
    {
        self.running = true;
        if self.source.is_some() {
            let (token, abort) = self.slot.replace();
            SlotChange::Started { token, abort }
        } else {
            let abort = self.slot.cancel();
            SlotChange::Stopped { abort }
        }
    }

    /// Stops the timer; returns the token of the task to abort, if any.
    pub fn stop(&mut self) -> (r: Option<u64>)
        requires
            old(self).wf(),
        ensures
            final(self).wf(),
            final(self).consistent(),
            !final(self).running(),
            final(self).task() is None,
            final(self).source() == old(self).source(),
            final(self).last_fired() == old(self).last_fired(),
            r == old(self).task(),
    {
        self.running = false;
        self.slot.cancel()
    }

    /// A new expression. An absent or unchanged one changes nothing; one that
    /// does not compile is refused and changes nothing. Otherwise it is put in
    /// force, and a running timer restarts its task, or stops it when the
    /// expression is blank.
    pub fn set_config(&mut self, schedule: Option<&str>) -> (r: Result<SlotChange, ConfigError>)
        requires
            old(self).wf(),
        ensures
            final(self).wf(),
            final(self).consistent(),
            final(self).running() == old(self).running(),
            final(self).last_fired() == old(self).last_fired(),
            match schedule {
                None => r matches Ok(SlotChange::Unchanged) && final(self).source() == old(
                    self,
                ).source() && final(self).task() == old(self).task(),
                Some(s) => if source_of(s@) == old(self).source() {
                    r matches Ok(SlotChange::Unchanged) && final(self).source() == old(
                        self,
                    ).source() && final(self).task() == old(self).task()
                } else if source_of(s@) is Some && !cron_accepts(s@) {
                    r == Err::<SlotChange, ConfigError>(ConfigError::InvalidSchedule)
                        && final(self).source() == old(self).source() && final(self).task() == old(
                        self,
                    ).task()
                } else {
                    &&& final(self).source() == source_of(s@)
                    &&& !old(self).running() ==> (r matches Ok(SlotChange::Unchanged)
                        && final(self).task() == old(self).task())
                    &&& old(self).running() && source_of(s@) is Some ==> (r matches Ok(
                        SlotChange::Started { token, abort },
                    ) && final(self).task() == Some(token) && abort == old(self).task() && abort
                        != Some(token))
                    &&& old(self).running() && source_of(s@) is None ==> (r matches Ok(
                        SlotChange::Stopped { abort },
                    ) && abort == old(self).task() && final(self).task() is None)
                },
            },
    {
        let expr = match schedule {
            None => {
                return Ok(SlotChange::Unchanged);
            },
            Some(s) => s,
        };
        if self.same_source(expr) {
            return Ok(SlotChange::Unchanged);
        }
        let source = match parse_schedule(expr) {
            Ok(source) => source,
            Err(e) => {
                return Err(e);
            },
        };
        self.source = source;
        if !self.running {
            return Ok(SlotChange::Unchanged);
        }
        if self.source.is_some() {
            let (token, abort) = self.slot.replace();
            Ok(SlotChange::Started { token, abort })
        } else {
            let abort = self.slot.cancel();
            Ok(SlotChange::Stopped { abort })
        }
    }

    /// Plans the scheduling loop's next step at the instant `now_ms`: wait until
    /// the first matching instant after now and after the last instant emitted;
    /// or finish, when no schedule is in force, when that search would start
    /// beyond the year 9999, or when no matching instant is left.
    pub fn next_wait(&self, now_ms: i64) -> (r: CronStep)
        requires
            self.wf(),
        ensures
            match self.source() {
                None => r is Finished,
                Some(s) => if -LATEST_INSTANT_MS <= self.plan_from(now_ms) <= LATEST_INSTANT_MS {
                    r == cron_step_spec(cron_next(s, self.plan_from(now_ms)), now_ms)
                } else {
                    r is Finished
                },
            },
            r is Finished || (r matches CronStep::Wait { at_ms, wait_ms } && at_ms > now_ms
                && wait_ms == at_ms - now_ms && (self.last_fired() matches Some(l) ==> at_ms
                > l)),
    {
        let from = match self.last_fired {
            Some(l) => if l > now_ms {
                l
            } else {
                now_ms
            },
            None => now_ms,
        };
        if from < -LATEST_INSTANT_MS || from > LATEST_INSTANT_MS {
            return CronStep::Finished;
        }
        match &self.source {
            None => CronStep::Finished,
            Some(expr) => {
                let next = next_cron_instant(expr.as_str(), from);
                cron_step(next, now_ms)
            },
        }
    }

    /// The task with this token has slept until the instant `at_ms`: whether it
    /// emits. A task that was stopped or replaced does not; one that emits
    /// records the instant, so that it is not planned again.
    pub fn fire(&mut self, token: u64, at_ms: i64) -> (r: bool)
        requires
            old(self).wf(),
        ensures
            final(self).wf(),
            final(self).consistent(),
            r == (old(self).task() == Some(token)),
            final(self).source() == old(self).source(),
            final(self).running() == old(self).running(),
            final(self).task() == old(self).task(),
            r ==> final(self).last_fired() == Some(
                match old(self).last_fired() {
                    Some(l) => if l > at_ms {
                        l
                    } else {
                        at_ms
                    },
                    None => at_ms,
                },
            ),
            !r ==> final(self).last_fired() == old(self).last_fired(),
    {
        if !self.slot.is_current(token) {
            return false;
        }
        self.last_fired = match self.last_fired {
            Some(l) => if l > at_ms {
                Some(l)
            } else {
                Some(at_ms)
            },
            None => Some(at_ms),
        };
        true
    }
}

} // verus!
