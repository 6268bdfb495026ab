//! The equalizer: a preset, and the settings of the custom one.

use crate::node::Node;
use crate::number::{decimal, decimal_spec, signed_decimal};
use crate::radio::error::Error;
use crate::radio::plan::{Plan, Update, Write};
use crate::radio::Radio;
use vstd::prelude::*;
use vstd::std_specs::convert::FromSpecImpl;

verus! {

/// The equalizer of the device.
#[derive(Debug, PartialEq, Eq)]
pub struct Eq {
    pub preset: EqPreset,
    pub custom: EqCustom,
}

/// A preset of the equalizer.
#[derive(Debug, Clone, Copy, PartialEq, Eq, Structural)]
pub enum EqPreset {
    Custom,
    Normal,
    Flat,
    Jazz,
    Rock,
    Movie,
    Classic,
    Pop,
    News,
}

/// The settings of the custom preset.
#[derive(Debug, PartialEq, Eq)]
pub struct EqCustom {
    pub loudness: bool,
    pub bass: i32,
    pub trebble: i32,
}

/// The lowest level of bass and of trebble.
pub const LEVEL_MIN: i32 = -7;

/// The highest level of bass and of trebble.
pub const LEVEL_MAX: i32 = 7;

/// `1` for on, `0` for off, as text.
pub open spec fn flag_spec(on: bool) -> Seq<char> {
    if on {
        decimal_spec(1)
    } else {
        decimal_spec(0)
    }
}

/// `1` for on, `0` for off, as text.
pub fn flag(on: bool) -> (text: String)
    ensures
        text@ == flag_spec(on),
{
    if on {
        decimal(1)
    } else {
        decimal(0)
    }
}

impl EqPreset {
    /// The number of the preset on the wire.
    pub open spec fn code_spec(self) -> u8 {
        match self {
            EqPreset::Custom => 0,
            EqPreset::Normal => 1,
            EqPreset::Flat => 2,
            EqPreset::Jazz => 3,
            EqPreset::Rock => 4,
            EqPreset::Movie => 5,
            EqPreset::Classic => 6,
            EqPreset::Pop => 7,
            EqPreset::News => 8,
        }
    }

    /// The preset with the number `code`, if there is one.
    pub open spec fn of_code(code: u8) -> Option<EqPreset> {
        if code == 0 {
            Some(EqPreset::Custom)
        } else if code == 1 {
            Some(EqPreset::Normal)
        } else if code == 2 {
            Some(EqPreset::Flat)
        } else if code == 3 {
            Some(EqPreset::Jazz)
        } else if code == 4 {
            Some(EqPreset::Rock)
        } else if code == 5 {
            Some(EqPreset::Movie)
        } else if code == 6 {
            Some(EqPreset::Classic)
        } else if code == 7 {
            Some(EqPreset::Pop)
        } else if code == 8 {
            Some(EqPreset::News)
        } else {
            None
        }
    }

    /// The name of the preset.
    pub open spec fn name(self) -> Seq<char> {
        match self {
            EqPreset::Custom => "Custom"@,
            EqPreset::Normal => "Normal"@,
            EqPreset::Flat => "Flat"@,
            EqPreset::Jazz => "Jazz"@,
            EqPreset::Rock => "Rock"@,
            EqPreset::Movie => "Movie"@,
            EqPreset::Classic => "Classic"@,
            EqPreset::Pop => "Pop"@,
            EqPreset::News => "News"@,
        }
    }

    /// The number of the preset on the wire.
    pub fn code(self) -> (code: u8)
        ensures
            code == self.code_spec(),
    {
        match self {
            EqPreset::Custom => 0,
            EqPreset::Normal => 1,
            EqPreset::Flat => 2,
            EqPreset::Jazz => 3,
            EqPreset::Rock => 4,
            EqPreset::Movie => 5,
            EqPreset::Classic => 6,
            EqPreset::Pop => 7,
            EqPreset::News => 8,
        }
    }

    /// The preset with the number `code`, if there is one.
    pub fn try_from_code(code: u8) -> (preset: Option<EqPreset>)
        ensures
            preset == EqPreset::of_code(code),
    {
        match code {
            0 => Some(EqPreset::Custom),
            1 => Some(EqPreset::Normal),
            2 => Some(EqPreset::Flat),
            3 => Some(EqPreset::Jazz),
            4 => Some(EqPreset::Rock),
            5 => Some(EqPreset::Movie),
            6 => Some(EqPreset::Classic),
            7 => Some(EqPreset::Pop),
            8 => Some(EqPreset::News),
            _ => None,
        }
    }

    /// Every preset has the number that gives it back.
    pub proof fn lemma_code_round_trip(self)
        ensures
            EqPreset::of_code(self.code_spec()) == Some(self),
    {
    }

    /// The name of the preset.
    pub fn to_string(&self) -> (text: String)
        ensures
            text@ == self.name(),
    {
        match self {
            EqPreset::Custom => "Custom".to_string(),
            EqPreset::Normal => "Normal".to_string(),
            EqPreset::Flat => "Flat".to_string(),
            EqPreset::Jazz => "Jazz".to_string(),
            EqPreset::Rock => "Rock".to_string(),
            EqPreset::Movie => "Movie".to_string(),
            EqPreset::Classic => "Classic".to_string(),
            EqPreset::Pop => "Pop".to_string(),
            EqPreset::News => "News".to_string(),
        }
    }
}

impl From<u8> for EqPreset {
    /// The preset with this number; `Normal` for a number that is none.
    fn from(preset: u8) -> (r: EqPreset) {
        match EqPreset::try_from_code(preset) {
            Some(p) => p,
            None => EqPreset::Normal,
        }
    }
}

impl FromSpecImpl<u8> for EqPreset {
    open spec fn obeys_from_spec() -> bool {
        true
    }

    open spec fn from_spec(preset: u8) -> EqPreset {
        match EqPreset::of_code(preset) {
            Some(p) => p,
            None => EqPreset::Normal,
        }
    }
}

impl Eq {
    /// The equalizer as the device reports it: the number of the preset, and
    /// the custom settings.
    pub fn new(preset: u8, custom: EqCustom) -> (eq: Eq)
        ensures
            eq.preset == match EqPreset::of_code(preset) {
                Some(p) => p,
                None => EqPreset::Normal,
            },
            eq.custom == custom,
    {
        Eq { preset: EqPreset::from(preset), custom }
    }

    /// Selects a preset.
    pub fn set(&self, preset: EqPreset) -> (plan: Plan)
        ensures
            plan.writes(Node::SysAudioEqPreset, decimal_spec(preset.code_spec() as int)),
            plan.update == Update::EqPreset(preset),
    {
        Plan {
            write: Some(
                Write { node: Node::SysAudioEqPreset, value: decimal(preset.code() as u64) },
            ),
            update: Update::EqPreset(preset),
        }
    }
}

impl EqCustom {
    /// The level is one that bass and trebble can have.
    pub open spec fn in_range(level: i32) -> bool {
        LEVEL_MIN <= level <= LEVEL_MAX
    }

    /// The custom settings as the device reports them.
    pub fn new(loudness: u8, bass: i16, trebble: i16) -> (custom: EqCustom)
        ensures
            custom == (EqCustom { loudness: loudness == 1, bass: bass as i32, trebble: trebble as i32 }),
    {
        EqCustom { loudness: loudness == 1, bass: bass as i32, trebble: trebble as i32 }
    }

    /// Switches loudness on or off. Nothing is to do where it is so already.
    pub fn set_loudness(&self, loudness: bool) -> (plan: Plan)
        ensures
            loudness == self.loudness ==> plan.write is None && plan.update == Update::Nothing,
            loudness != self.loudness ==> plan.writes(Node::SysAudioEqLoudness, flag_spec(loudness))
                && plan.update == Update::Loudness(loudness),
    {
        if loudness != self.loudness {
            Plan {
                write: Some(Write { node: Node::SysAudioEqLoudness, value: flag(loudness) }),
                update: Update::Loudness(loudness),
            }
        } else {
            Plan { write: None, update: Update::Nothing }
        }
    }

    /// Sets the bass. Nothing is to do where it is so already; a level out
    /// of range is refused.
    pub fn set_bass(&self, bass: i32) -> (r: Result<Plan, Error>)
        ensures
            match r {
                Ok(plan) => if bass == self.bass {
                    plan.write is None && plan.update == Update::Nothing
                } else {
                    EqCustom::in_range(bass) && plan.writes(
                        Node::SysAudioEqCustomParam0,
                        decimal_spec(bass as int),
                    ) && plan.update == Update::Bass(bass)
                },
                Err(e) => bass != self.bass && !EqCustom::in_range(bass) && e
                    == Error::InvalidValue,
            },
    {
        if bass != self.bass {
            if LEVEL_MIN <= bass && bass <= LEVEL_MAX {
                Ok(
                    Plan {
                        write: Some(
                            Write {
                                node: Node::SysAudioEqCustomParam0,
                                value: signed_decimal(bass as i64),
                            },
                        ),
                        update: Update::Bass(bass),
                    },
                )
            } else {
                Err(Error::InvalidValue)
            }
        } else {
            Ok(Plan { write: None, update: Update::Nothing })
        }
    }

    /// Sets the trebble. Nothing is to do where it is so already; a level
    /// out of range is refused.
    pub fn set_trebble(&self, trebble: i32) -> (r: Result<Plan, Error>)
        ensures
            match r {
                Ok(plan) => if trebble == self.trebble {
                    plan.write is None && plan.update == Update::Nothing
                } else {
                    EqCustom::in_range(trebble) && plan.writes(
                        Node::SysAudioEqCustomParam1,
                        decimal_spec(trebble as int),
                    ) && plan.update == Update::Trebble(trebble)
                },
                Err(e) => trebble != self.trebble && !EqCustom::in_range(trebble) && e
                    == Error::InvalidValue,
            },
    {
        if trebble != self.trebble {
            if LEVEL_MIN <= trebble && trebble <= LEVEL_MAX {
                Ok(
                    Plan {
                        write: Some(
                            Write {
                                node: Node::SysAudioEqCustomParam1,
                                value: signed_decimal(trebble as i64),
                            },
                        ),
                        update: Update::Trebble(trebble),
                    },
                )
            } else {
                Err(Error::InvalidValue)
            }
        } else {
            Ok(Plan { write: None, update: Update::Nothing })
        }
    }
}

impl Radio {
    /// Selects a preset of the equalizer.
    pub fn eq_set(&self, preset: EqPreset) -> (plan: Plan)
        ensures
            plan.writes(Node::SysAudioEqPreset, decimal_spec(preset.code_spec() as int)),
            plan.update == Update::EqPreset(preset),
    {
        self.audio.eq.set(preset)
    }

    /// Sets the bass of the custom preset.
    pub fn eq_custom_bass_set(&self, bass: i32) -> (r: Result<Plan, Error>)
        ensures
            match r {
                Ok(plan) => if bass == self.audio.eq.custom.bass {
                    plan.write is None && plan.update == Update::Nothing
                } else {
                    EqCustom::in_range(bass) && plan.writes(
                        Node::SysAudioEqCustomParam0,
                        decimal_spec(bass as int),
                    ) && plan.update == Update::Bass(bass)
                },
                Err(e) => bass != self.audio.eq.custom.bass && !EqCustom::in_range(bass) && e
                    == Error::InvalidValue,
            },
    {
        self.audio.eq.custom.set_bass(bass)
    }

    /// Takes a level of trebble and sets the bass to it: this setter goes
    /// the way of [`Radio::eq_custom_bass_set`]. The trebble itself is set
    /// by [`EqCustom::set_trebble`].
    pub fn eq_custom_trebble_set(&self, trebble: i32) -> (r: Result<Plan, Error>)
        ensures
            match r {
                Ok(plan) => if trebble == self.audio.eq.custom.bass {
                    plan.write is None && plan.update == Update::Nothing
                } else {
                    EqCustom::in_range(trebble) && plan.writes(
                        Node::SysAudioEqCustomParam0,
                        decimal_spec(trebble as int),
                    ) && plan.update == Update::Bass(trebble)
                },
                Err(e) => trebble != self.audio.eq.custom.bass && !EqCustom::in_range(trebble)
                    && e == Error::InvalidValue,
            },
    {
        self.audio.eq.custom.set_bass(trebble)
    }
}

} // verus!
