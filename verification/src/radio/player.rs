//! The player: what it plays and what it is doing.

use crate::node::Node;
use crate::number::{decimal, decimal_spec};
use crate::radio::plan::Write;
use crate::radio::player::info::PlayerInfo;
use crate::radio::player::status::Status;
use vstd::prelude::*;

pub mod info;
pub mod status;

verus! {

/// The player of the device.
#[derive(Debug, PartialEq, Eq)]
pub struct Player {
    pub info: PlayerInfo,
    pub status: Status,
}

/// The control that starts and pauses.
pub const CONTROL_TOGGLE: u32 = 0;

/// The control that skips to the next track.
pub const CONTROL_NEXT: u32 = 3;

/// The control that skips to the previous track.
pub const CONTROL_PREV: u32 = 4;

impl Player {
    /// The player, of its two parts.
    pub fn new(info: PlayerInfo, status: Status) -> (player: Player)
        ensures
            player.info == info,
            player.status == status,
    {
        Player { info, status }
    }

    /// The write that works a control of the player.
    fn control_set(option: u32) -> (write: Write)
        ensures
            write.node == Node::PlayControl,
            write.value@ == decimal_spec(option as int),
    {
        Write { node: Node::PlayControl, value: decimal(option as u64) }
    }

    /// Starts or pauses.
    pub fn toggle() -> (write: Write)
        ensures
            write.node == Node::PlayControl,
            write.value@ == decimal_spec(CONTROL_TOGGLE as int),
    {
        Player::control_set(CONTROL_TOGGLE)
    }

    /// Skips to the next track.
    pub fn next() -> (write: Write)
        ensures
            write.node == Node::PlayControl,
            write.value@ == decimal_spec(CONTROL_NEXT as int),
    {
        Player::control_set(CONTROL_NEXT)
    }

    /// Skips to the previous track.
    pub fn prev() -> (write: Write)
        ensures
            write.node == Node::PlayControl,
            write.value@ == decimal_spec(CONTROL_PREV as int),
    {
        Player::control_set(CONTROL_PREV)
    }
}

} // verus!
