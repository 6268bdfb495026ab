//! The volume and the mute switch.

use crate::node::Node;
use crate::number::{decimal, decimal_spec};
use crate::radio::audio::eq::{flag, flag_spec};
use crate::radio::error::Error;
use crate::radio::plan::{Plan, Update, Write};
use crate::radio::Radio;
use vstd::prelude::*;

verus! {

/// The volume of the device, from `0` to `max_volume`.
#[derive(Debug, PartialEq, Eq)]
pub struct Volume {
    pub max_volume: u32,
    pub volume: u32,
    pub muted: bool,
}

impl Volume {
    /// The volume that is set where `volume` is asked for: no more than the
    /// device can do.
    pub open spec fn clamped(self, volume: u32) -> u32 {
        if volume > self.max_volume {
            self.max_volume
        } else {
            volume
        }
    }

    /// The volume that is asked for where the present one is to change by
    /// `change`: zero where the sum is no `u32`.
    pub open spec fn stepped(self, change: i32) -> u32 {
        if 0 <= self.volume + change <= u32::MAX {
            (self.volume + change) as u32
        } else {
            0
        }
    }

    /// The volume as the device reports it: the number of its steps, the
    /// step that it is at, and whether it is muted. A device without steps
    /// is refused.
    pub fn new(volume_steps: u8, volume: u8, muted: u8) -> (r: Result<Volume, Error>)
        ensures
            match r {
                Ok(v) => volume_steps > 0 && v == (Volume {
                    max_volume: (volume_steps - 1) as u32,
                    volume: volume as u32,
                    muted: muted == 1,
                }),
                Err(e) => volume_steps == 0 && e == Error::Empty,
            },
    {
        match volume_steps.checked_sub(1) {
            Some(max) => Ok(
                Volume { max_volume: max as u32, volume: volume as u32, muted: muted == 1 },
            ),
            None => Err(Error::Empty),
        }
    }

    /// Sets the volume, to the highest one where more is asked for.
    pub fn set(&self, volume: u32) -> (plan: Plan)
        ensures
            plan.writes(Node::SysAudioVolume, decimal_spec(self.clamped(volume) as int)),
            plan.update == Update::Volume(self.clamped(volume)),
    {
        let volume = if volume > self.max_volume {
            self.max_volume
        } else {
            volume
        };
        Plan {
            write: Some(Write { node: Node::SysAudioVolume, value: decimal(volume as u64) }),
            update: Update::Volume(volume),
        }
    }

    /// Changes the volume by `change` steps, up or down.
    pub fn up(&self, change: i32) -> (plan: Plan)
        ensures
            plan.writes(
                Node::SysAudioVolume,
                decimal_spec(self.clamped(self.stepped(change)) as int),
            ),
            plan.update == Update::Volume(self.clamped(self.stepped(change))),
    {
        let new_volume = match self.volume.checked_add_signed(change) {
            Some(v) => v,
            None => 0,
        };
        self.set(new_volume)
    }

    /// Mutes or unmutes. The device is told only where the switch stands so
    /// already; the mirrored switch is set either way.
    pub fn mute(&self, mute: bool) -> (plan: Plan)
        ensures
            self.muted == mute ==> plan.writes(Node::SysAudioMute, flag_spec(mute)),
            self.muted != mute ==> plan.write is None,
            plan.update == Update::Muted(mute),
    {
        let write = if self.muted == mute {
            Some(Write { node: Node::SysAudioMute, value: flag(mute) })
        } else {
            None
        };
        Plan { write, update: Update::Muted(mute) }
    }

    /// Flips the mute switch.
    pub fn toggle(&self) -> (plan: Plan)
        ensures
            plan.writes(Node::SysAudioMute, flag_spec(!self.muted)),
            plan.update == Update::Muted(!self.muted),
    {
        let new = !self.muted;
        Plan {
            write: Some(Write { node: Node::SysAudioMute, value: flag(new) }),
            update: Update::Muted(new),
        }
    }
}

impl Radio {
    /// Sets the volume, to the highest one where more is asked for.
    pub fn volume_set(&self, volume: u32) -> (plan: Plan)
        ensures
            plan.writes(
                Node::SysAudioVolume,
                decimal_spec(self.audio.volume.clamped(volume) as int),
            ),
            plan.update == Update::Volume(self.audio.volume.clamped(volume)),
    {
        self.audio.volume.set(volume)
    }

    /// Changes the volume by `change` steps, up or down.
    pub fn volume_up(&self, change: i32) -> (plan: Plan)
        ensures
            plan.writes(
                Node::SysAudioVolume,
                decimal_spec(
                    self.audio.volume.clamped(self.audio.volume.stepped(change)) as int,
                ),
            ),
            plan.update == Update::Volume(
                self.audio.volume.clamped(self.audio.volume.stepped(change)),
            ),
    {
        self.audio.volume.up(change)
    }

    /// Mutes or unmutes, as [`Volume::mute`] does.
    pub fn volume_mute(&self, mute: bool) -> (plan: Plan)
        ensures
            self.audio.volume.muted == mute ==> plan.writes(Node::SysAudioMute, flag_spec(mute)),
            self.audio.volume.muted != mute ==> plan.write is None,
            plan.update == Update::Muted(mute),
    {
        self.audio.volume.mute(mute)
    }

    /// Flips the mute switch.
    pub fn volume_toggle(&self) -> (plan: Plan)
        ensures
            plan.writes(Node::SysAudioMute, flag_spec(!self.audio.volume.muted)),
            plan.update == Update::Muted(!self.audio.volume.muted),
    {
        self.audio.volume.toggle()
    }
}

} // verus!
