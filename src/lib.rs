//! Timed emission and rate control for a dataflow host: duration parsing, a
//! cancellable task slot, and the decisions of the delay, interval, cron
//! schedule and throttle emitters, each stated and proved. The host runs the
//! sleeps and the emissions that these decisions call for.

use vstd::prelude::*;

pub mod delay;
pub mod duration;
pub mod error;
pub mod interval;
pub mod schedule;
pub mod task_slot;
pub mod throttle;

verus! {

} // verus!
