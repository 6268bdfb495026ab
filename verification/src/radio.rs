//! The radio: the mirrored state of a device, and what keeps it up to date.

use crate::radio::audio::Audio;
use crate::radio::audio::eq::EqPreset;
use crate::radio::mode::Mode;
use crate::radio::nav::Nav;
use crate::radio::plan::Update;
use crate::radio::player::Player;
use crate::radio::player::status::Status;
use crate::radio::power::Power;
use crate::radio::sleep::Sleep;
use crate::client::{
    FsApi, get_notifications_spec, get_notifications_url_spec, reply_view, through,
};
use crate::error::{Error as FsApiError, TransportError};
use crate::node::Node;
use crate::value::{
    Notification, NotificationView, ResponseStatus, ResponseView, SessionID, Value,
    notifications_view,
};
use vstd::prelude::*;

pub mod audio;
pub mod error;
pub mod mode;
pub mod nav;
pub mod plan;
pub mod player;
pub mod power;
pub mod sleep;

pub use error::Error;

verus! {

/// A device and what is known of its state.
#[derive(Debug, PartialEq, Eq)]
pub struct Radio {
    pub host: String,
    pub pin: String,
    pub session_id: SessionID,
    pub audio: Audio,
    pub player: Player,
    pub nav: Nav,
    pub power: Power,
    pub sleep: Sleep,
    pub mode: Mode,
}

/// The number in a value that is to be a `u8`. A value of another type is a
/// mistake on this side.
pub fn u8_of(value: Value) -> (r: Result<u8, Error>)
    ensures
        r == match value {
            Value::U8(v) => Ok::<u8, Error>(v),
            _ => Err(Error::Oops),
        },
{
    match value {
        Value::U8(v) => Ok(v),
        _ => Err(Error::Oops),
    }
}

/// The number in a value that is to be an `i16`.
pub fn i16_of(value: Value) -> (r: Result<i16, Error>)
    ensures
        r == match value {
            Value::S16(v) => Ok::<i16, Error>(v),
            _ => Err(Error::Oops),
        },
{
    match value {
        Value::S16(v) => Ok(v),
        _ => Err(Error::Oops),
    }
}

/// The number in a value that is to be a `u32`.
pub fn u32_of(value: Value) -> (r: Result<u32, Error>)
    ensures
        r == match value {
            Value::U32(v) => Ok::<u32, Error>(v),
            _ => Err(Error::Oops),
        },
{
    match value {
        Value::U32(v) => Ok(v),
        _ => Err(Error::Oops),
    }
}

/// The text in a value that is to be a text.
pub fn text_of(value: Value) -> (r: Result<String, Error>)
    ensures
        r == match value {
            Value::Text(v) => Ok::<String, Error>(v),
            _ => Err(Error::Oops),
        },
{
    match value {
        Value::Text(v) => Ok(v),
        _ => Err(Error::Oops),
    }
}

impl Update {
    /// The change that a notification asks for: to the field that mirrors
    /// its node, where there is one and the value is of the node's type, and
    /// none otherwise.
    pub open spec fn of(notification: Notification) -> Update {
        match (notification.node, notification.value) {
            (Node::SysAudioVolume, Value::U8(volume)) => Update::Volume(volume as u32),
            (Node::SysAudioMute, Value::U8(mute)) => Update::Muted(mute == 1),
            (Node::SysPower, Value::U8(state)) => Update::Power(state == 1),
            (Node::SysAudioEqPreset, Value::U8(preset)) => Update::EqPreset(
                match EqPreset::of_code(preset) {
                    Some(p) => p,
                    None => EqPreset::Normal,
                },
            ),
            (Node::SysAudioEqLoudness, Value::U8(loudness)) => Update::Loudness(loudness == 1),
            (Node::SysAudioEqCustomParam0, Value::S16(bass)) => Update::Bass(bass as i32),
            (Node::SysAudioEqCustomParam1, Value::S16(trebble)) => Update::Trebble(trebble as i32),
            (Node::PlayInfoName, Value::Text(name)) => Update::Name(name),
            (Node::PlayInfoText, Value::Text(text)) => Update::Text(text),
            (Node::PlayInfoAlbum, Value::Text(album)) => Update::Album(album),
            (Node::PlayInfoArtist, Value::Text(artist)) => Update::Artist(artist),
            (Node::PlayInfoDuration, Value::U32(duration)) => Update::Duration(duration as u64),
            (Node::PlayInfoGraphicUri, Value::Text(uri)) => Update::GraphicUri(uri),
            (Node::SysMode, Value::U32(mode)) => Update::Mode(
                match Mode::of_code(mode) {
                    Some(m) => m,
                    None => Mode::FallBack,
                },
            ),
            (Node::PlayStatus, Value::U8(status)) => Update::Status(Status::of_code(status)),
            _ => Update::Nothing,
        }
    }

    /// The change that a notification asks for.
    pub fn from_notification(notification: Notification) -> (update: Update)
        ensures
            update == Update::of(notification),
    {
        match notification.node {
            Node::SysAudioVolume => match notification.value {
                Value::U8(volume) => Update::Volume(volume as u32),
                _ => Update::Nothing,
            },
            Node::SysAudioMute => match notification.value {
                Value::U8(mute) => Update::Muted(mute == 1),
                _ => Update::Nothing,
            },
            Node::SysPower => match notification.value {
                Value::U8(state) => Update::Power(state == 1),
                _ => Update::Nothing,
            },
            Node::SysAudioEqPreset => match notification.value {
                Value::U8(preset) => Update::EqPreset(EqPreset::from(preset)),
                _ => Update::Nothing,
            },
            Node::SysAudioEqLoudness => match notification.value {
                Value::U8(loudness) => Update::Loudness(loudness == 1),
                _ => Update::Nothing,
            },
            Node::SysAudioEqCustomParam0 => match notification.value {
                Value::S16(bass) => Update::Bass(bass as i32),
                _ => Update::Nothing,
            },
            Node::SysAudioEqCustomParam1 => match notification.value {
                Value::S16(trebble) => Update::Trebble(trebble as i32),
                _ => Update::Nothing,
            },
            Node::PlayInfoName => match notification.value {
                Value::Text(name) => Update::Name(name),
                _ => Update::Nothing,
            },
            Node::PlayInfoText => match notification.value {
                Value::Text(text) => Update::Text(text),
                _ => Update::Nothing,
            },
            Node::PlayInfoAlbum => match notification.value {
                Value::Text(album) => Update::Album(album),
                _ => Update::Nothing,
            },
            Node::PlayInfoArtist => match notification.value {
                Value::Text(artist) => Update::Artist(artist),
                _ => Update::Nothing,
            },
            Node::PlayInfoDuration => match notification.value {
                Value::U32(duration) => Update::Duration(duration as u64),
                _ => Update::Nothing,
            },
            Node::PlayInfoGraphicUri => match notification.value {
                Value::Text(uri) => Update::GraphicUri(uri),
                _ => Update::Nothing,
            },
            Node::SysMode => match notification.value {
                Value::U32(mode) => Update::Mode(Mode::from(mode)),
                _ => Update::Nothing,
            },
            Node::PlayStatus => match notification.value {
                Value::U8(status) => Update::Status(Status::from(status)),
                _ => Update::Nothing,
            },
            _ => Update::Nothing,
        }
    }
}

impl Radio {
    /// The radio of a session, with the state that was read from the device.
    pub fn new(
        host: String,
        pin: String,
        session_id: SessionID,
        audio: Audio,
        player: Player,
        nav: Nav,
        power: Power,
        sleep: Sleep,
        mode: Mode,
    ) -> (radio: Radio)
        ensures
            radio == (Radio { host, pin, session_id, audio, player, nav, power, sleep, mode }),
    {
        Radio { host, pin, session_id, audio, player, nav, power, sleep, mode }
    }

    /// The URL that waits for the notifications of the radio's session.
    pub fn get_notifications_url(&self) -> (url: String)
        ensures
            url@ == get_notifications_url_spec(self.session_id, self.host@, self.pin@),
    {
        FsApi::get_notifications_url(self.session_id, self.host.as_str(), self.pin.as_str())
    }

    /// Reads the reply to a poll: what has changed, or `None` where nothing
    /// has.
    pub fn get_notifications(&self, reply: Result<String, TransportError>) -> (r: Result<
        Option<Vec<Notification>>,
        Error,
    >)
        ensures
            match r {
                Ok(Some(batch)) => through(
                    reply_view(reply),
                    |x: ResponseView| get_notifications_spec(x),
                ) == Ok::<_, FsApiError>(Some(notifications_view(batch@))),
                Ok(None) => through(reply_view(reply), |x: ResponseView| get_notifications_spec(x))
                    == Ok::<Option<Seq<NotificationView>>, FsApiError>(None),
                Err(e) => through(reply_view(reply), |x: ResponseView| get_notifications_spec(x))
                    matches Err(cause) && e == Error::of_client(cause),
            },
    {
        match FsApi::get_notifications(reply) {
            Ok(polled) => Ok(polled),
            Err(e) => Err(Error::from(e)),
        }
    }

    /// The state after `update`: the one field that it names has the new
    /// value, and every other field is as it was.
    pub open spec fn updated(self, update: Update) -> Radio {
        match update {
            Update::Volume(volume) => Radio {
                audio: Audio {
                    volume: crate::radio::audio::volume::Volume { volume, ..self.audio.volume },
                    ..self.audio
                },
                ..self
            },
            Update::Muted(muted) => Radio {
                audio: Audio {
                    volume: crate::radio::audio::volume::Volume { muted, ..self.audio.volume },
                    ..self.audio
                },
                ..self
            },
            Update::Power(state) => Radio { power: Power { state }, ..self },
            Update::EqPreset(preset) => Radio {
                audio: Audio {
                    eq: crate::radio::audio::eq::Eq { preset, ..self.audio.eq },
                    ..self.audio
                },
                ..self
            },
            Update::Loudness(loudness) => Radio {
                audio: Audio {
                    eq: crate::radio::audio::eq::Eq {
                        custom: crate::radio::audio::eq::EqCustom {
                            loudness,
                            ..self.audio.eq.custom
                        },
                        ..self.audio.eq
                    },
                    ..self.audio
                },
                ..self
            },
            Update::Bass(bass) => Radio {
                audio: Audio {
                    eq: crate::radio::audio::eq::Eq {
                        custom: crate::radio::audio::eq::EqCustom { bass, ..self.audio.eq.custom },
                        ..self.audio.eq
                    },
                    ..self.audio
                },
                ..self
            },
            Update::Trebble(trebble) => Radio {
                audio: Audio {
                    eq: crate::radio::audio::eq::Eq {
                        custom: crate::radio::audio::eq::EqCustom {
                            trebble,
                            ..self.audio.eq.custom
                        },
                        ..self.audio.eq
                    },
                    ..self.audio
                },
                ..self
            },
            Update::Name(name) => Radio {
                player: Player {
                    info: crate::radio::player::info::PlayerInfo { name, ..self.player.info },
                    ..self.player
                },
                ..self
            },
            Update::Text(text) => Radio {
                player: Player {
                    info: crate::radio::player::info::PlayerInfo { text, ..self.player.info },
                    ..self.player
                },
                ..self
            },
            Update::Album(album) => Radio {
                player: Player {
                    info: crate::radio::player::info::PlayerInfo { album, ..self.player.info },
                    ..self.player
                },
                ..self
            },
            Update::Artist(artist) => Radio {
                player: Player {
                    info: crate::radio::player::info::PlayerInfo { artist, ..self.player.info },
                    ..self.player
                },
                ..self
            },
            Update::Duration(duration) => Radio {
                player: Player {
                    info: crate::radio::player::info::PlayerInfo { duration, ..self.player.info },
                    ..self.player
                },
                ..self
            },
            Update::GraphicUri(graphic_uri) => Radio {
                player: Player {
                    info: crate::radio::player::info::PlayerInfo {
                        graphic_uri,
                        ..self.player.info
                    },
                    ..self.player
                },
                ..self
            },
            Update::Mode(mode) => Radio { mode, ..self },
            Update::Status(status) => Radio { player: Player { status, ..self.player }, ..self },
            Update::SleepIn(sleep_in) => Radio { sleep: Sleep { sleep_in }, ..self },
            Update::Nothing => self,
        }
    }

    /// The state after the notifications of `batch`, one after the other.
    pub open spec fn notified(self, batch: Seq<Notification>) -> Radio
        decreases batch.len(),
    {
        if batch.len() == 0 {
            self
        } else {
            self.updated(Update::of(batch[0])).notified(batch.skip(1))
        }
    }

    /// The state after a poll: after the notifications that it brought, and
    /// as it was where it brought none.
    pub open spec fn polled(self, polled: Option<Vec<Notification>>) -> Radio {
        match polled {
            Some(batch) => self.notified(batch@),
            None => self,
        }
    }

    /// A poll that the device answers with `FS_TIMEOUT` is no error and
    /// brings nothing, and what brings nothing leaves the state as it is.
    pub proof fn lemma_timeout_changes_nothing(self, response: ResponseView)
        requires
            response.status == ResponseStatus::Timeout,
        ensures
            get_notifications_spec(response) == Ok::<Option<Seq<NotificationView>>, FsApiError>(
                None,
            ),
            self.polled(None) == self,
    {
    }

    /// Makes the change to the mirrored state.
    pub fn apply(&mut self, update: Update)
        ensures
            *final(self) == old(self).updated(update),
    {
        match update {
            Update::Volume(volume) => {
                self.audio.volume.volume = volume;
            },
            Update::Muted(muted) => {
                self.audio.volume.muted = muted;
            },
            Update::Power(state) => {
                self.power.state = state;
            },
            Update::EqPreset(preset) => {
                self.audio.eq.preset = preset;
            },
            Update::Loudness(loudness) => {
                self.audio.eq.custom.loudness = loudness;
            },
            Update::Bass(bass) => {
                self.audio.eq.custom.bass = bass;
            },
            Update::Trebble(trebble) => {
                self.audio.eq.custom.trebble = trebble;
            },
            Update::Name(name) => {
                self.player.info.name = name;
            },
            Update::Text(text) => {
                self.player.info.text = text;
            },
            Update::Album(album) => {
                self.player.info.album = album;
            },
            Update::Artist(artist) => {
                self.player.info.artist = artist;
            },
            Update::Duration(duration) => {
                self.player.info.duration = duration;
            },
            Update::GraphicUri(graphic_uri) => {
                self.player.info.graphic_uri = graphic_uri;
            },
            Update::Mode(mode) => {
                self.mode = mode;
            },
            Update::Status(status) => {
                self.player.status = status;
            },
            Update::SleepIn(sleep_in) => {
                self.sleep.sleep_in = sleep_in;
            },
            Update::Nothing => {},
        }
    }

    /// Brings the mirrored state up to date with one notification. A node
    /// that no field mirrors changes nothing.
    pub fn handle_notification(&mut self, notification: Notification) -> (r: Result<(), Error>)
        ensures
            r is Ok,
            *final(self) == old(self).updated(Update::of(notification)),
    {
        self.apply(Update::from_notification(notification));
        Ok(())
    }

    /// Brings the mirrored state up to date with what a poll brought: every
    /// notification in its turn, and nothing where nothing has changed.
    pub fn handle_notifications(&mut self, polled: Option<Vec<Notification>>) -> (r: Result<
        (),
        Error,
    >)
        ensures
            r is Ok,
            *final(self) == old(self).polled(polled),
    {
        if let Some(batch) = polled {
            let ghost whole = batch@;
            assert(whole.skip(0) =~= whole);
            for notification in it: batch.into_iter()
                invariant
                    it.seq() == whole,
                    old(self).notified(whole) == self.notified(whole.skip(it.index() as int)),
            {
                let ghost rest = whole.skip(it.index() as int);
                assert(rest.skip(1) =~= whole.skip(it.index() + 1));
                self.apply(Update::from_notification(notification));
            }
        }
        Ok(())
    }
}

} // verus!
