//! The power switch.

use crate::node::Node;
use crate::radio::audio::eq::{flag, flag_spec};
use crate::radio::plan::{Plan, Update, Write};
use crate::radio::Radio;
use vstd::prelude::*;

verus! {

/// Whether the device is on.
#[derive(Debug, Clone, Copy, PartialEq, Eq, Structural)]
pub struct Power {
    pub state: bool,
}

impl Power {
    /// The switch as the device reports it.
    pub fn new(state: u8) -> (power: Power)
        ensures
            power.state == (state == 1),
    {
        Power { state: state == 1 }
    }

    /// Switches the device on or off. The device is told only where the
    /// switch changes, and it is told where the switch stood; the mirrored
    /// switch is set either way.
    pub fn set(&self, state: bool) -> (plan: Plan)
        ensures
            state != self.state ==> plan.writes(Node::SysPower, flag_spec(self.state)),
            state == self.state ==> plan.write is None,
            plan.update == Update::Power(state),
    {
        let old_state = self.state;
        let write = if state != old_state {
            Some(Write { node: Node::SysPower, value: flag(old_state) })
        } else {
            None
        };
        Plan { write, update: Update::Power(state) }
    }

    /// Flips the switch.
    pub fn toggle(&self) -> (plan: Plan)
        ensures
            plan.writes(Node::SysPower, flag_spec(!self.state)),
            plan.update == Update::Power(!self.state),
    {
        let new_state = !self.state;
        Plan {
            write: Some(Write { node: Node::SysPower, value: flag(new_state) }),
            update: Update::Power(new_state),
        }
    }
}

impl Radio {
    /// Switches the device on or off, as [`Power::set`] does.
    pub fn power_set(&self, power: bool) -> (plan: Plan)
        ensures
            power != self.power.state ==> plan.writes(Node::SysPower, flag_spec(self.power.state)),
            power == self.power.state ==> plan.write is None,
            plan.update == Update::Power(power),
    {
        self.power.set(power)
    }
}

} // verus!
