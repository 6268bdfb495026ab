//! What the player is doing.

use crate::node::Node;
use crate::number::decimal_spec;
use crate::radio::plan::Write;
use crate::radio::player::{CONTROL_NEXT, CONTROL_TOGGLE, Player};
use crate::radio::Radio;
use vstd::prelude::*;
use vstd::std_specs::convert::FromSpecImpl;

verus! {

/// The state of the player.
#[derive(Debug, Clone, Copy, PartialEq, Eq, Structural)]
pub enum Status {
    /// After a change of mode.
    Loading,
    Buffering,
    Playing,
    Paused,
    /// While Spotify opens.
    Waiting,
    Disconnected,
    /// Every number that is none of the others.
    Unknown,
}

impl Status {
    /// The state that the device reports with the number `status`.
    pub open spec fn of_code(status: u8) -> Status {
        if status == 0 {
            Status::Loading
        } else if status == 1 {
            Status::Buffering
        } else if status == 2 {
            Status::Playing
        } else if status == 3 {
            Status::Paused
        } else if status == 5 {
            Status::Waiting
        } else if status == 6 {
            Status::Disconnected
        } else {
            Status::Unknown
        }
    }

    /// The state that the device reports with the number `status`.
    pub fn get(status: u8) -> (r: Status)
        ensures
            r == Status::of_code(status),
    {
        Status::from(status)
    }
}

impl From<u8> for Status {
    fn from(status: u8) -> (r: Status) {
        match status {
            0 => Status::Loading,
            1 => Status::Buffering,
            2 => Status::Playing,
            3 => Status::Paused,
            5 => Status::Waiting,
            6 => Status::Disconnected,
            _ => Status::Unknown,
        }
    }
}

impl FromSpecImpl<u8> for Status {
    open spec fn obeys_from_spec() -> bool {
        true
    }

    open spec fn from_spec(status: u8) -> Status {
        Status::of_code(status)
    }
}

impl Radio {
    /// Starts or pauses. Where the mode does not allow it, the device
    /// refuses the write.
    pub fn player_toggle(&self) -> (write: Write)
        ensures
            write.node == Node::PlayControl,
            write.value@ == decimal_spec(CONTROL_TOGGLE as int),
    {
        Player::toggle()
    }

    /// Skips to the next track.
    pub fn player_next(&self) -> (write: Write)
        ensures
            write.node == Node::PlayControl,
            write.value@ == decimal_spec(CONTROL_NEXT as int),
    {
        Player::next()
    }

    /// Works the same control as [`Radio::player_next`]. The control that
    /// skips back is [`Player::prev`].
    pub fn player_prev(&self) -> (write: Write)
        ensures
            write.node == Node::PlayControl,
            write.value@ == decimal_spec(CONTROL_NEXT as int),
    {
        Player::next()
    }

    /// The state of the player that the device reports with the number
    /// `status`.
    pub fn player_get_status(&self, status: u8) -> (r: Status)
        ensures
            r == Status::of_code(status),
    {
        Status::get(status)
    }
}

} // verus!
