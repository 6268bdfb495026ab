//! The operating mode of the device.

use crate::node::Node;
use crate::number::{decimal, decimal_spec};
use crate::radio::error::Error;
use crate::radio::plan::Write;
use crate::radio::Radio;
use vstd::prelude::*;
use vstd::std_specs::convert::FromSpecImpl;

verus! {

/// The source that the device plays from.
#[derive(Debug, Clone, Copy, PartialEq, Eq, Structural)]
pub enum Mode {
    Internet,
    Spotify,
    Dmr,
    MusicPlayer,
    Dab,
    Fm,
    AuxIn,
    /// Stands for every number that is no mode. It cannot be set.
    FallBack,
}

impl Mode {
    /// The number of the mode on the wire.
    pub open spec fn code_spec(self) -> u32 {
        match self {
            Mode::Internet => 0,
            Mode::Spotify => 1,
            Mode::Dmr => 2,
            Mode::MusicPlayer => 3,
            Mode::Dab => 4,
            Mode::Fm => 5,
            Mode::AuxIn => 6,
            Mode::FallBack => 7,
        }
    }

    /// The mode with the number `code`, if it is one that the device has.
    pub open spec fn of_code(code: u32) -> Option<Mode> {
        if code == 0 {
            Some(Mode::Internet)
        } else if code == 1 {
            Some(Mode::Spotify)
        } else if code == 2 {
            Some(Mode::Dmr)
        } else if code == 3 {
            Some(Mode::MusicPlayer)
        } else if code == 4 {
            Some(Mode::Dab)
        } else if code == 5 {
            Some(Mode::Fm)
        } else if code == 6 {
            Some(Mode::AuxIn)
        } else {
            None
        }
    }

    /// The name of the mode.
    pub open spec fn name(self) -> Seq<char> {
        match self {
            Mode::Internet => "Internet"@,
            Mode::Spotify => "Spotify"@,
            Mode::Dmr => "DMR"@,
            Mode::MusicPlayer => "Music Player"@,
            Mode::Dab => "DAB"@,
            Mode::Fm => "FM"@,
            Mode::AuxIn => "Aux in"@,
            Mode::FallBack => "Fallback"@,
        }
    }

    /// The number of the mode on the wire.
    pub fn code(self) -> (code: u32)
        ensures
            code == self.code_spec(),
    {
        match self {
            Mode::Internet => 0,
            Mode::Spotify => 1,
            Mode::Dmr => 2,
            Mode::MusicPlayer => 3,
            Mode::Dab => 4,
            Mode::Fm => 5,
            Mode::AuxIn => 6,
            Mode::FallBack => 7,
        }
    }

    /// The mode with the number `code`, if it is one that the device has.
    pub fn try_from_code(code: u32) -> (mode: Option<Mode>)
        ensures
            mode == Mode::of_code(code),
    {
        match code {
            0 => Some(Mode::Internet),
            1 => Some(Mode::Spotify),
            2 => Some(Mode::Dmr),
            3 => Some(Mode::MusicPlayer),
            4 => Some(Mode::Dab),
            5 => Some(Mode::Fm),
            6 => Some(Mode::AuxIn),
            _ => None,
        }
    }

    /// The mode that the device reports with the number `mode`.
    pub fn new(mode: u32) -> (r: Mode)
        ensures
            r == match Mode::of_code(mode) {
                Some(m) => m,
                None => Mode::FallBack,
            },
    {
        Mode::from(mode)
    }

    /// The write that sets the mode. The fallback is no mode to set.
    pub fn set(mode: Mode) -> (r: Result<Write, Error>)
        ensures
            match r {
                Ok(write) => mode != Mode::FallBack && write.node == Node::SysMode && write.value@
                    == decimal_spec(mode.code_spec() as int),
                Err(e) => mode == Mode::FallBack && e == Error::InvalidValue,
            },
    {
        match mode {
            Mode::FallBack => Err(Error::InvalidValue),
            _ => Ok(Write { node: Node::SysMode, value: decimal(mode.code() as u64) }),
        }
    }

    /// The name of the mode.
    pub fn to_string(&self) -> (text: String)
        ensures
            text@ == self.name(),
    {
        match self {
            Mode::Internet => "Internet".to_string(),
            Mode::Spotify => "Spotify".to_string(),
            Mode::Dmr => "DMR".to_string(),
            Mode::MusicPlayer => "Music Player".to_string(),
            Mode::Dab => "DAB".to_string(),
            Mode::Fm => "FM".to_string(),
            Mode::AuxIn => "Aux in".to_string(),
            Mode::FallBack => "Fallback".to_string(),
        }
    }
}

impl From<u32> for Mode {
    /// The mode with this number; the fallback for a number that is none.
    fn from(mode: u32) -> (r: Mode) {
        match Mode::try_from_code(mode) {
            Some(m) => m,
            None => Mode::FallBack,
        }
    }
}

impl FromSpecImpl<u32> for Mode {
    open spec fn obeys_from_spec() -> bool {
        true
    }

    open spec fn from_spec(mode: u32) -> Mode {
        match Mode::of_code(mode) {
            Some(m) => m,
            None => Mode::FallBack,
        }
    }
}

impl Radio {
    /// The write that sets the mode. The mirrored mode changes when the
    /// device reports the new one.
    pub fn mode_set(&self, mode: Mode) -> (r: Result<Write, Error>)
        ensures
            match r {
                Ok(write) => mode != Mode::FallBack && write.node == Node::SysMode && write.value@
                    == decimal_spec(mode.code_spec() as int),
                Err(e) => mode == Mode::FallBack && e == Error::InvalidValue,
            },
    {
        Mode::set(mode)
    }
}

} // verus!
