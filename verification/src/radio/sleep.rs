//! The sleep timer.

use crate::node::Node;
use crate::number::{decimal, decimal_spec};
use crate::radio::plan::{Plan, Update, Write};
use crate::radio::Radio;
use vstd::prelude::*;

verus! {

/// The time until the device goes to sleep, in seconds. Zero is no timer.
#[derive(Debug, Clone, Copy, PartialEq, Eq, Structural)]
pub struct Sleep {
    pub sleep_in: u64,
}

impl Sleep {
    /// The timer as the device reports it.
    pub fn new(seconds: u32) -> (sleep: Sleep)
        ensures
            sleep.sleep_in == seconds,
    {
        Sleep { sleep_in: seconds as u64 }
    }

    /// Sets the timer to `seconds` from now.
    pub fn set(&self, seconds: u64) -> (plan: Plan)
        ensures
            plan.writes(Node::SysSleep, decimal_spec(seconds as int)),
            plan.update == Update::SleepIn(seconds),
    {
        Plan {
            write: Some(Write { node: Node::SysSleep, value: decimal(seconds) }),
            update: Update::SleepIn(seconds),
        }
    }
}

impl Radio {
    /// The write that sets the sleep timer to `seconds` from now. The
    /// mirrored timer is left as it is.
    pub fn sleep_in(&self, seconds: u64) -> (write: Write)
        ensures
            write.node == Node::SysSleep,
            write.value@ == decimal_spec(seconds as int),
    {
        Write { node: Node::SysSleep, value: decimal(seconds) }
    }
}

} // verus!
