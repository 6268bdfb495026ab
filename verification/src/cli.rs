//! The commands of the command line, and what each asks of the device.

use crate::cli::error::Error;
use crate::node::Node;
use crate::number::{decimal, decimal_spec};
use crate::radio::audio::eq::{flag, flag_spec};
use crate::radio::plan::Write;
use crate::value::Value;
use vstd::prelude::*;

pub mod config;
pub mod error;

verus! {

/// A command.
#[derive(Debug, Clone, Copy, PartialEq, Eq, Structural)]
pub enum Command {
    /// Turn the radio on.
    On,
    /// Turn the radio off.
    Off,
    /// Mute the radio.
    Mute,
    /// Unmute the radio.
    UnMute,
    /// Change the volume.
    Volume(Volume),
    /// Play a preset.
    Favorite(Number),
}

/// A change of the volume.
#[derive(Debug, Clone, Copy, PartialEq, Eq, Structural)]
pub enum Volume {
    /// Set the volume.
    SetTo(Number),
    /// Raise the volume, by one where no number is given.
    Up(Number),
    /// Lower the volume, by one where no number is given.
    Down(Number),
}

/// A number that may have been left out.
#[derive(Debug, Clone, Copy, PartialEq, Eq, Structural)]
pub struct Number {
    pub number: Option<u32>,
}

/// What a command asks for first.
#[derive(Debug, PartialEq, Eq)]
pub enum Step {
    /// A write, and with it the command is done.
    Write(Write),
    /// The volume is to be read; [`Command::with_volume`] says how to go on.
    ReadVolume,
    /// A write that switches navigation on; [`Command::select`] says how to
    /// go on.
    Enable(Write),
}

impl Number {
    /// The number, or `default` where it was left out.
    pub open spec fn or(self, default: u32) -> u32 {
        match self.number {
            Some(n) => n,
            None => default,
        }
    }
}

impl Command {
    /// The volume that a change of the volume asks for, where the volume is
    /// `volume` now. `None` where the command changes no volume, where the
    /// number to set is left out, and where the result is no `u32`.
    pub open spec fn target(self, volume: u32) -> Option<u32> {
        match self {
            Command::Volume(Volume::SetTo(n)) => n.number,
            Command::Volume(Volume::Up(n)) => if volume + n.or(1) <= u32::MAX {
                Some((volume + n.or(1)) as u32)
            } else {
                None
            },
            Command::Volume(Volume::Down(n)) => if volume >= n.or(1) {
                Some((volume - n.or(1)) as u32)
            } else {
                None
            },
            _ => None,
        }
    }

    /// What the command asks for first. A volume to set that is left out
    /// makes the command invalid.
    pub fn execute(&self) -> (r: Result<Step, Error>)
        ensures
            match *self {
                Command::On => r matches Ok(Step::Write(w)) && w.node == Node::SysPower && w.value@
                    == flag_spec(true),
                Command::Off => r matches Ok(Step::Write(w)) && w.node == Node::SysPower
                    && w.value@ == flag_spec(false),
                Command::Mute => r matches Ok(Step::Write(w)) && w.node == Node::SysAudioMute
                    && w.value@ == flag_spec(true),
                Command::UnMute => r matches Ok(Step::Write(w)) && w.node == Node::SysAudioMute
                    && w.value@ == flag_spec(false),
                Command::Volume(Volume::SetTo(n)) => match n.number {
                    Some(volume) => r matches Ok(Step::Write(w)) && w.node == Node::SysAudioVolume
                        && w.value@ == decimal_spec(volume as int),
                    None => r == Err::<Step, _>(Error::InvalidCommand),
                },
                Command::Volume(_) => r == Ok::<_, Error>(Step::ReadVolume),
                Command::Favorite(_) => r matches Ok(Step::Enable(w)) && w.node == Node::NavState
                    && w.value@ == decimal_spec(1),
            },
    {
        match self {
            Command::On => Ok(Step::Write(power(true))),
            Command::Off => Ok(Step::Write(power(false))),
            Command::Mute => Ok(Step::Write(mute(true))),
            Command::UnMute => Ok(Step::Write(mute(false))),
            Command::Volume(Volume::SetTo(n)) => match n.number {
                Some(volume) => Ok(
                    Step::Write(
                        Write { node: Node::SysAudioVolume, value: decimal(volume as u64) },
                    ),
                ),
                None => Err(Error::InvalidCommand),
            },
            Command::Volume(_) => Ok(Step::ReadVolume),
            Command::Favorite(_) => Ok(
                Step::Enable(Write { node: Node::NavState, value: decimal(1) }),
            ),
        }
    }

    /// How a command that raises or lowers the volume goes on once the
    /// volume is read: with the write of the new volume, unless that is no
    /// `u32`.
    pub fn with_volume(&self, volume: u32) -> (r: Result<Write, Error>)
        ensures
            match r {
                Ok(w) => self.target(volume) matches Some(v) && w.node == Node::SysAudioVolume
                    && w.value@ == decimal_spec(v as int),
                Err(e) => self.target(volume) is None && e == Error::InvalidCommand,
            },
    {
        let target = match self {
            Command::Volume(Volume::SetTo(n)) => n.number,
            Command::Volume(Volume::Up(n)) => volume.checked_add(
                match n.number {
                    Some(by) => by,
                    None => 1,
                },
            ),
            Command::Volume(Volume::Down(n)) => volume.checked_sub(
                match n.number {
                    Some(by) => by,
                    None => 1,
                },
            ),
            _ => None,
        };
        match target {
            Some(v) => Ok(Write { node: Node::SysAudioVolume, value: decimal(v as u64) }),
            None => Err(Error::InvalidCommand),
        }
    }

    /// How a command that plays a preset goes on once navigation is on:
    /// with the write that selects the preset, unless its number is left out.
    pub fn select(&self) -> (r: Result<Write, Error>)
        ensures
            match r {
                Ok(w) => *self matches Command::Favorite(n) && n.number matches Some(preset)
                    && w.node == Node::NavActionSelectPreset && w.value@ == decimal_spec(
                    preset as int,
                ),
                Err(e) => !(*self matches Command::Favorite(n) && n.number is Some) && e
                    == Error::InvalidCommand,
            },
    {
        match self {
            Command::Favorite(Number { number: Some(preset) }) => Ok(
                Write { node: Node::NavActionSelectPreset, value: decimal(*preset as u64) },
            ),
            _ => Err(Error::InvalidCommand),
        }
    }
}

/// The volume in the value that the device reports for it.
pub fn get_volume(value: Value) -> (r: Result<u32, Error>)
    ensures
        r == match value {
            Value::U8(volume) => Ok::<u32, Error>(volume as u32),
            _ => Err(Error::Internal),
        },
{
    match value {
        Value::U8(volume) => Ok(volume as u32),
        _ => Err(Error::Internal),
    }
}

/// The write that mutes or unmutes.
pub fn mute(muted: bool) -> (write: Write)
    ensures
        write.node == Node::SysAudioMute,
        write.value@ == flag_spec(muted),
{
    Write { node: Node::SysAudioMute, value: flag(muted) }
}

/// The write that switches the device on or off.
pub fn power(on: bool) -> (write: Write)
    ensures
        write.node == Node::SysPower,
        write.value@ == flag_spec(on),
{
    Write { node: Node::SysPower, value: flag(on) }
}

} // verus!
