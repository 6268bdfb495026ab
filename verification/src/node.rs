//! The node table: every capability of the device has an identifier here and
//! a path on the wire, and the two are matched one to one.

use crate::error::Error;
use crate::text::bytes_are;
use vstd::prelude::*;
use vstd::utf8::{encode_utf8, encode_utf8_decode_utf8};

verus! {

/// One capability of the device.
#[derive(Debug, Clone, Copy, PartialEq, Eq, Hash, Structural)]
pub enum Node {
    // Navigation
    /// `netremote.nav.list`
    NavList,
    /// `netremote.nav.numItems`
    NavNumItems,
    /// `netremote.nav.presets`
    NavPresets,
    /// `netremote.nav.searchTerm`
    NavSearchTerm,
    /// `netremote.nav.state`
    NavState,
    /// `netremote.nav.status`
    NavStatus,
    /// `netremote.nav.depth`
    NavDepth,
    // Navigation actions
    /// `netremote.nav.action.dabScan`
    NavActionDabScan,
    /// `netremote.nav.action.navigate`
    NavActionNavigate,
    /// `netremote.nav.action.selectItem`
    NavActionSelectItem,
    /// `netremote.nav.action.selectPreset`
    NavActionSelectPreset,
    // Playback
    /// `netremote.play.addpreset`
    PlayAddPreset,
    /// `netremote.play.caps`
    PlayCaps,
    /// `netremote.play.control`
    PlayControl,
    /// `netremote.play.errorstr`
    PlayErrorStr,
    /// `netremote.play.frequency`
    PlayFrequency,
    /// `netremote.play.position`
    PlayPosition,
    /// `netremote.play.rate`
    PlayRate,
    /// `netremote.play.repeat`
    PlayRepeat,
    /// `netremote.play.scrobble`
    PlayScrobble,
    /// `netremote.play.shuffle`
    PlayShuffle,
    /// `netremote.play.shufflestatus`
    PlayShuffleStatus,
    /// `netremote.play.signalstrength`
    PlaySignalStrength,
    /// `netremote.play.status`
    PlayStatus,
    // What is playing
    /// `netremote.play.info.album`
    PlayInfoAlbum,
    /// `netremote.play.info.artist`
    PlayInfoArtist,
    /// `netremote.play.info.duration`
    PlayInfoDuration,
    /// `netremote.play.info.graphicuri`
    PlayInfoGraphicUri,
    /// `netremote.play.info.name`
    PlayInfoName,
    /// `netremote.play.info.text`
    PlayInfoText,
    // Service identifiers
    /// `netremote.play.serviceids.dabinsembleid`
    PlayServiceIdsDabEnsambleId,
    /// `netremote.play.serviceids.dabscids`
    PlayServiceIdsDabScids,
    /// `netremote.play.serviceids.dabserviceid`
    PlayServiceIdsDabServiceId,
    /// `netremote.play.serviceids.ecc`
    PlayServiceIdsEcc,
    /// `netremote.play.serviceids.fmrdspi`
    PlayServiceIdsfmRdsPi,
    // System
    /// `netremote.sys.lang`
    SysLang,
    /// `netremote.sys.mode`
    SysMode,
    /// `netremote.sys.power`
    SysPower,
    /// `netremote.sys.sleep`
    SysSleep,
    /// `netremote.sys.state`
    SysState,
    // Audio
    /// `netremote.sys.audio.eqcustom.param0`
    SysAudioEqCustomParam0,
    /// `netremote.sys.audio.eqcustom.param1`
    SysAudioEqCustomParam1,
    /// `netremote.sys.audio.eqloudness`
    SysAudioEqLoudness,
    /// `netremote.sys.audio.eqpreset`
    SysAudioEqPreset,
    /// `netremote.sys.audio.mute`
    SysAudioMute,
    /// `netremote.sys.audio.volume`
    SysAudioVolume,
    // Capabilities
    /// `netremote.sys.caps.clocksourcelist`
    SysCapsClockSourceList,
    /// `netremote.sys.caps.dabfreqlist`
    SysCapsDabFreqList,
    /// `netremote.sys.caps.eqbands`
    SysCapsEqBands,
    /// `netremote.sys.caps.eqpresets`
    SysCapsEqPresets,
    /// `netremote.sys.caps.fmfreqrange.lower`
    SysCapsFmFreqRangeLower,
    /// `netremote.sys.caps.fmfreqrange.stepsize`
    SysCapsFmFreqRangeStepSize,
    /// `netremote.sys.caps.fmfreqrange.upper`
    SysCapsFmFreqRangeUpper,
    /// `netremote.sys.caps.validmodes`
    SysCapsValidModes,
    /// `netremote.sys.caps.volumesteps`
    SysCapsVolumeSteps,
    // Clock
    /// `netremote.sys.clock.dst`
    SysClockDst,
    /// `netremote.sys.clock.localdate`
    SysClockLocalDate,
    /// `netremote.sys.clock.localtime`
    SysClockLocalTime,
    /// `netremote.sys.clock.mode`
    SysClockMode,
    /// `netremote.sys.clock.source`
    SysClockSource,
    /// `netremote.sys.clock.utcoffset`
    SysClockUtcOffset,
    // Configuration
    /// `netremote.sys.clock.irautoplayflag`
    SysCfgIrAutoPlayFlag,
    // Device information
    /// `netremote.sys.info.friendlyname`
    SysInfoFriendlyName,
    /// `netremote.sys.info.radioid`
    SysInfoRadioId,
    /// `netremote.sys.info.radiopin`
    SysInfoRadioPin,
    /// `netremote.sys.info.version`
    SysInfoVersion,
    /// `netremote.sys.info.controllername`
    SysInfoControlName,
    // Software update
    /// `netremote.sys.isu.control`
    SysIsuControl,
    /// `netremote.sys.isu.state`
    SysIsuState,
    // Network
    /// `netremote.net.ipconfig.address`
    SysNetIpConfigAddress,
    /// `netremote.net.ipconfig.dhcp`
    SysNetIpConfigDhcp,
    /// `netremote.net.ipconfig.dnsprimary`
    SysNetIpConfigDnsPrimary,
    /// `netremote.net.ipconfig.dnssecundary`
    SysNetIpConfigDnsSecundary,
    /// `netremote.net.ipconfig.gateway`
    SysNetIpConfigGateway,
    /// `netremote.net.ipconfig.subnetmask`
    SysNetIpConfigSubnetMask,
    /// `netremote.net.ipconfig.keepconnected`
    SysNetIpConfigKeepConnected,
    /// `netremote.net.wired.interfaceenable`
    SysNetWiredInterfaceEnable,
    /// `netremote.net.wired.macaddress`
    SysNetWiredInterfaceMacAddress,
    /// `netremote.net.wlan.connectedssid`
    SysNetWlanConnectedSSID,
    /// `netremote.net.wlan.interfaceenable`
    SysNetWlanInterfaceEnable,
    /// `netremote.net.wlan.macaddress`
    SysNetWlanInterfaceMacAddress,
    /// `netremote.net.wlan.rsii`
    SysNetWlanRssi,
    /// `netremote.net.wlan.setauthtype`
    SysNetWlanSetAuthType,
    /// `netremote.net.wlan.setenctype`
    SysNetWlanSetEncType,
    // RSA
    /// `netremote.sys.rsa.publickey`
    SysRsaPublicKey,
    /// `netremote.sys.rsa.status`
    SysRsaStatus,
}

/// The number of nodes in the table.
pub const COUNT: usize = 86;

/// What tells one path from another: the length, and the last character, the
/// third from the end and the eighth from the end.
pub open spec fn mark(path: Seq<char>) -> (nat, char, char, char) {
    (path.len(), path[path.len() - 1], path[path.len() - 3], path[path.len() - 8])
}

impl Node {
    /// The node's path on the wire.
    pub open spec fn path(self) -> Seq<char> {
        match self {
            Node::NavList => "netremote.nav.list"@,
            Node::NavNumItems => "netremote.nav.numItems"@,
            Node::NavPresets => "netremote.nav.presets"@,
            Node::NavSearchTerm => "netremote.nav.searchTerm"@,
            Node::NavState => "netremote.nav.state"@,
            Node::NavStatus => "netremote.nav.status"@,
            Node::NavDepth => "netremote.nav.depth"@,
            Node::NavActionDabScan => "netremote.nav.action.dabScan"@,
            Node::NavActionNavigate => "netremote.nav.action.navigate"@,
            Node::NavActionSelectItem => "netremote.nav.action.selectItem"@,
            Node::NavActionSelectPreset => "netremote.nav.action.selectPreset"@,
            Node::PlayAddPreset => "netremote.play.addpreset"@,
            Node::PlayCaps => "netremote.play.caps"@,
            Node::PlayControl => "netremote.play.control"@,
            Node::PlayErrorStr => "netremote.play.errorstr"@,
            Node::PlayFrequency => "netremote.play.frequency"@,
            Node::PlayPosition => "netremote.play.position"@,
            Node::PlayRate => "netremote.play.rate"@,
            Node::PlayRepeat => "netremote.play.repeat"@,
            Node::PlayScrobble => "netremote.play.scrobble"@,
            Node::PlayShuffle => "netremote.play.shuffle"@,
            Node::PlayShuffleStatus => "netremote.play.shufflestatus"@,
            Node::PlaySignalStrength => "netremote.play.signalstrength"@,
            Node::PlayStatus => "netremote.play.status"@,
            Node::PlayInfoAlbum => "netremote.play.info.album"@,
            Node::PlayInfoArtist => "netremote.play.info.artist"@,
            Node::PlayInfoDuration => "netremote.play.info.duration"@,
            Node::PlayInfoGraphicUri => "netremote.play.info.graphicuri"@,
            Node::PlayInfoName => "netremote.play.info.name"@,
            Node::PlayInfoText => "netremote.play.info.text"@,
            Node::PlayServiceIdsDabEnsambleId => "netremote.play.serviceids.dabinsembleid"@,
            Node::PlayServiceIdsDabScids => "netremote.play.serviceids.dabscids"@,
            Node::PlayServiceIdsDabServiceId => "netremote.play.serviceids.dabserviceid"@,
            Node::PlayServiceIdsEcc => "netremote.play.serviceids.ecc"@,
            Node::PlayServiceIdsfmRdsPi => "netremote.play.serviceids.fmrdspi"@,
            Node::SysLang => "netremote.sys.lang"@,
            Node::SysMode => "netremote.sys.mode"@,
            Node::SysPower => "netremote.sys.power"@,
            Node::SysSleep => "netremote.sys.sleep"@,
            Node::SysState => "netremote.sys.state"@,
            Node::SysAudioEqCustomParam0 => "netremote.sys.audio.eqcustom.param0"@,
            Node::SysAudioEqCustomParam1 => "netremote.sys.audio.eqcustom.param1"@,
            Node::SysAudioEqLoudness => "netremote.sys.audio.eqloudness"@,
            Node::SysAudioEqPreset => "netremote.sys.audio.eqpreset"@,
            Node::SysAudioMute => "netremote.sys.audio.mute"@,
            Node::SysAudioVolume => "netremote.sys.audio.volume"@,
            Node::SysCapsClockSourceList => "netremote.sys.caps.clocksourcelist"@,
            Node::SysCapsDabFreqList => "netremote.sys.caps.dabfreqlist"@,
            Node::SysCapsEqBands => "netremote.sys.caps.eqbands"@,
            Node::SysCapsEqPresets => "netremote.sys.caps.eqpresets"@,
            Node::SysCapsFmFreqRangeLower => "netremote.sys.caps.fmfreqrange.lower"@,
            Node::SysCapsFmFreqRangeStepSize => "netremote.sys.caps.fmfreqrange.stepsize"@,
            Node::SysCapsFmFreqRangeUpper => "netremote.sys.caps.fmfreqrange.upper"@,
            Node::SysCapsValidModes => "netremote.sys.caps.validmodes"@,
            Node::SysCapsVolumeSteps => "netremote.sys.caps.volumesteps"@,
            Node::SysClockDst => "netremote.sys.clock.dst"@,
            Node::SysClockLocalDate => "netremote.sys.clock.localdate"@,
            Node::SysClockLocalTime => "netremote.sys.clock.localtime"@,
            Node::SysClockMode => "netremote.sys.clock.mode"@,
            Node::SysClockSource => "netremote.sys.clock.source"@,
            Node::SysClockUtcOffset => "netremote.sys.clock.utcoffset"@,
            Node::SysCfgIrAutoPlayFlag => "netremote.sys.clock.irautoplayflag"@,
            Node::SysInfoFriendlyName => "netremote.sys.info.friendlyname"@,
            Node::SysInfoRadioId => "netremote.sys.info.radioid"@,
            Node::SysInfoRadioPin => "netremote.sys.info.radiopin"@,
            Node::SysInfoVersion => "netremote.sys.info.version"@,
            Node::SysInfoControlName => "netremote.sys.info.controllername"@,
            Node::SysIsuControl => "netremote.sys.isu.control"@,
            Node::SysIsuState => "netremote.sys.isu.state"@,
            Node::SysNetIpConfigAddress => "netremote.net.ipconfig.address"@,
            Node::SysNetIpConfigDhcp => "netremote.net.ipconfig.dhcp"@,
            Node::SysNetIpConfigDnsPrimary => "netremote.net.ipconfig.dnsprimary"@,
            Node::SysNetIpConfigDnsSecundary => "netremote.net.ipconfig.dnssecundary"@,
            Node::SysNetIpConfigGateway => "netremote.net.ipconfig.gateway"@,
            Node::SysNetIpConfigSubnetMask => "netremote.net.ipconfig.subnetmask"@,
            Node::SysNetIpConfigKeepConnected => "netremote.net.ipconfig.keepconnected"@,
            Node::SysNetWiredInterfaceEnable => "netremote.net.wired.interfaceenable"@,
            Node::SysNetWiredInterfaceMacAddress => "netremote.net.wired.macaddress"@,
            Node::SysNetWlanConnectedSSID => "netremote.net.wlan.connectedssid"@,
            Node::SysNetWlanInterfaceEnable => "netremote.net.wlan.interfaceenable"@,
            Node::SysNetWlanInterfaceMacAddress => "netremote.net.wlan.macaddress"@,
            Node::SysNetWlanRssi => "netremote.net.wlan.rsii"@,
            Node::SysNetWlanSetAuthType => "netremote.net.wlan.setauthtype"@,
            Node::SysNetWlanSetEncType => "netremote.net.wlan.setenctype"@,
            Node::SysRsaPublicKey => "netremote.sys.rsa.publickey"@,
            Node::SysRsaStatus => "netremote.sys.rsa.status"@,
        }
    }

    /// The node's path on the wire.
    pub fn as_str(&self) -> (path: &'static str)
        ensures
            path@ == self.path(),
    {
        match self {
            Node::NavList => "netremote.nav.list",
            Node::NavNumItems => "netremote.nav.numItems",
            Node::NavPresets => "netremote.nav.presets",
            Node::NavSearchTerm => "netremote.nav.searchTerm",
            Node::NavState => "netremote.nav.state",
            Node::NavStatus => "netremote.nav.status",
            Node::NavDepth => "netremote.nav.depth",
            Node::NavActionDabScan => "netremote.nav.action.dabScan",
            Node::NavActionNavigate => "netremote.nav.action.navigate",
            Node::NavActionSelectItem => "netremote.nav.action.selectItem",
            Node::NavActionSelectPreset => "netremote.nav.action.selectPreset",
            Node::PlayAddPreset => "netremote.play.addpreset",
            Node::PlayCaps => "netremote.play.caps",
            Node::PlayControl => "netremote.play.control",
            Node::PlayErrorStr => "netremote.play.errorstr",
            Node::PlayFrequency => "netremote.play.frequency",
            Node::PlayPosition => "netremote.play.position",
            Node::PlayRate => "netremote.play.rate",
            Node::PlayRepeat => "netremote.play.repeat",
            Node::PlayScrobble => "netremote.play.scrobble",
            Node::PlayShuffle => "netremote.play.shuffle",
            Node::PlayShuffleStatus => "netremote.play.shufflestatus",
            Node::PlaySignalStrength => "netremote.play.signalstrength",
            Node::PlayStatus => "netremote.play.status",
            Node::PlayInfoAlbum => "netremote.play.info.album",
            Node::PlayInfoArtist => "netremote.play.info.artist",
            Node::PlayInfoDuration => "netremote.play.info.duration",
            Node::PlayInfoGraphicUri => "netremote.play.info.graphicuri",
            Node::PlayInfoName => "netremote.play.info.name",
            Node::PlayInfoText => "netremote.play.info.text",
            Node::PlayServiceIdsDabEnsambleId => "netremote.play.serviceids.dabinsembleid",
            Node::PlayServiceIdsDabScids => "netremote.play.serviceids.dabscids",
            Node::PlayServiceIdsDabServiceId => "netremote.play.serviceids.dabserviceid",
            Node::PlayServiceIdsEcc => "netremote.play.serviceids.ecc",
            Node::PlayServiceIdsfmRdsPi => "netremote.play.serviceids.fmrdspi",
            Node::SysLang => "netremote.sys.lang",
            Node::SysMode => "netremote.sys.mode",
            Node::SysPower => "netremote.sys.power",
            Node::SysSleep => "netremote.sys.sleep",
            Node::SysState => "netremote.sys.state",
            Node::SysAudioEqCustomParam0 => "netremote.sys.audio.eqcustom.param0",
            Node::SysAudioEqCustomParam1 => "netremote.sys.audio.eqcustom.param1",
            Node::SysAudioEqLoudness => "netremote.sys.audio.eqloudness",
            Node::SysAudioEqPreset => "netremote.sys.audio.eqpreset",
            Node::SysAudioMute => "netremote.sys.audio.mute",
            Node::SysAudioVolume => "netremote.sys.audio.volume",
            Node::SysCapsClockSourceList => "netremote.sys.caps.clocksourcelist",
            Node::SysCapsDabFreqList => "netremote.sys.caps.dabfreqlist",
            Node::SysCapsEqBands => "netremote.sys.caps.eqbands",
            Node::SysCapsEqPresets => "netremote.sys.caps.eqpresets",
            Node::SysCapsFmFreqRangeLower => "netremote.sys.caps.fmfreqrange.lower",
            Node::SysCapsFmFreqRangeStepSize => "netremote.sys.caps.fmfreqrange.stepsize",
            Node::SysCapsFmFreqRangeUpper => "netremote.sys.caps.fmfreqrange.upper",
            Node::SysCapsValidModes => "netremote.sys.caps.validmodes",
            Node::SysCapsVolumeSteps => "netremote.sys.caps.volumesteps",
            Node::SysClockDst => "netremote.sys.clock.dst",
            Node::SysClockLocalDate => "netremote.sys.clock.localdate",
            Node::SysClockLocalTime => "netremote.sys.clock.localtime",
            Node::SysClockMode => "netremote.sys.clock.mode",
            Node::SysClockSource => "netremote.sys.clock.source",
            Node::SysClockUtcOffset => "netremote.sys.clock.utcoffset",
            Node::SysCfgIrAutoPlayFlag => "netremote.sys.clock.irautoplayflag",
            Node::SysInfoFriendlyName => "netremote.sys.info.friendlyname",
            Node::SysInfoRadioId => "netremote.sys.info.radioid",
            Node::SysInfoRadioPin => "netremote.sys.info.radiopin",
            Node::SysInfoVersion => "netremote.sys.info.version",
            Node::SysInfoControlName => "netremote.sys.info.controllername",
            Node::SysIsuControl => "netremote.sys.isu.control",
            Node::SysIsuState => "netremote.sys.isu.state",
            Node::SysNetIpConfigAddress => "netremote.net.ipconfig.address",
            Node::SysNetIpConfigDhcp => "netremote.net.ipconfig.dhcp",
            Node::SysNetIpConfigDnsPrimary => "netremote.net.ipconfig.dnsprimary",
            Node::SysNetIpConfigDnsSecundary => "netremote.net.ipconfig.dnssecundary",
            Node::SysNetIpConfigGateway => "netremote.net.ipconfig.gateway",
            Node::SysNetIpConfigSubnetMask => "netremote.net.ipconfig.subnetmask",
            Node::SysNetIpConfigKeepConnected => "netremote.net.ipconfig.keepconnected",
            Node::SysNetWiredInterfaceEnable => "netremote.net.wired.interfaceenable",
            Node::SysNetWiredInterfaceMacAddress => "netremote.net.wired.macaddress",
            Node::SysNetWlanConnectedSSID => "netremote.net.wlan.connectedssid",
            Node::SysNetWlanInterfaceEnable => "netremote.net.wlan.interfaceenable",
            Node::SysNetWlanInterfaceMacAddress => "netremote.net.wlan.macaddress",
            Node::SysNetWlanRssi => "netremote.net.wlan.rsii",
            Node::SysNetWlanSetAuthType => "netremote.net.wlan.setauthtype",
            Node::SysNetWlanSetEncType => "netremote.net.wlan.setenctype",
            Node::SysRsaPublicKey => "netremote.sys.rsa.publickey",
            Node::SysRsaStatus => "netremote.sys.rsa.status",
        }
    }

    /// The node's path on the wire, as an owned string.
    pub fn to_string(&self) -> (path: String)
        ensures
            path@ == self.path(),
    {
        self.as_str().to_string()
    }

    /// The node's place in the table.
    pub open spec fn index(self) -> int {
        match self {
            Node::NavList => 0,
            Node::NavNumItems => 1,
            Node::NavPresets => 2,
            Node::NavSearchTerm => 3,
            Node::NavState => 4,
            Node::NavStatus => 5,
            Node::NavDepth => 6,
            Node::NavActionDabScan => 7,
            Node::NavActionNavigate => 8,
            Node::NavActionSelectItem => 9,
            Node::NavActionSelectPreset => 10,
            Node::PlayAddPreset => 11,
            Node::PlayCaps => 12,
            Node::PlayControl => 13,
            Node::PlayErrorStr => 14,
            Node::PlayFrequency => 15,
            Node::PlayPosition => 16,
            Node::PlayRate => 17,
            Node::PlayRepeat => 18,
            Node::PlayScrobble => 19,
            Node::PlayShuffle => 20,
            Node::PlayShuffleStatus => 21,
            Node::PlaySignalStrength => 22,
            Node::PlayStatus => 23,
            Node::PlayInfoAlbum => 24,
            Node::PlayInfoArtist => 25,
            Node::PlayInfoDuration => 26,
            Node::PlayInfoGraphicUri => 27,
            Node::PlayInfoName => 28,
            Node::PlayInfoText => 29,
            Node::PlayServiceIdsDabEnsambleId => 30,
            Node::PlayServiceIdsDabScids => 31,
            Node::PlayServiceIdsDabServiceId => 32,
            Node::PlayServiceIdsEcc => 33,
            Node::PlayServiceIdsfmRdsPi => 34,
            Node::SysLang => 35,
            Node::SysMode => 36,
            Node::SysPower => 37,
            Node::SysSleep => 38,
            Node::SysState => 39,
            Node::SysAudioEqCustomParam0 => 40,
            Node::SysAudioEqCustomParam1 => 41,
            Node::SysAudioEqLoudness => 42,
            Node::SysAudioEqPreset => 43,
            Node::SysAudioMute => 44,
            Node::SysAudioVolume => 45,
            Node::SysCapsClockSourceList => 46,
            Node::SysCapsDabFreqList => 47,
            Node::SysCapsEqBands => 48,
            Node::SysCapsEqPresets => 49,
            Node::SysCapsFmFreqRangeLower => 50,
            Node::SysCapsFmFreqRangeStepSize => 51,
            Node::SysCapsFmFreqRangeUpper => 52,
            Node::SysCapsValidModes => 53,
            Node::SysCapsVolumeSteps => 54,
            Node::SysClockDst => 55,
            Node::SysClockLocalDate => 56,
            Node::SysClockLocalTime => 57,
            Node::SysClockMode => 58,
            Node::SysClockSource => 59,
            Node::SysClockUtcOffset => 60,
            Node::SysCfgIrAutoPlayFlag => 61,
            Node::SysInfoFriendlyName => 62,
            Node::SysInfoRadioId => 63,
            Node::SysInfoRadioPin => 64,
            Node::SysInfoVersion => 65,
            Node::SysInfoControlName => 66,
            Node::SysIsuControl => 67,
            Node::SysIsuState => 68,
            Node::SysNetIpConfigAddress => 69,
            Node::SysNetIpConfigDhcp => 70,
            Node::SysNetIpConfigDnsPrimary => 71,
            Node::SysNetIpConfigDnsSecundary => 72,
            Node::SysNetIpConfigGateway => 73,
            Node::SysNetIpConfigSubnetMask => 74,
            Node::SysNetIpConfigKeepConnected => 75,
            Node::SysNetWiredInterfaceEnable => 76,
            Node::SysNetWiredInterfaceMacAddress => 77,
            Node::SysNetWlanConnectedSSID => 78,
            Node::SysNetWlanInterfaceEnable => 79,
            Node::SysNetWlanInterfaceMacAddress => 80,
            Node::SysNetWlanRssi => 81,
            Node::SysNetWlanSetAuthType => 82,
            Node::SysNetWlanSetEncType => 83,
            Node::SysRsaPublicKey => 84,
            Node::SysRsaStatus => 85,
        }
    }

    /// The node at place `i` of the table.
    pub open spec fn nth_spec(i: int) -> Node {
        if i == 0 {
            Node::NavList
        } else if i == 1 {
            Node::NavNumItems
        } else if i == 2 {
            Node::NavPresets
        } else if i == 3 {
            Node::NavSearchTerm
        } else if i == 4 {
            Node::NavState
        } else if i == 5 {
            Node::NavStatus
        } else if i == 6 {
            Node::NavDepth
        } else if i == 7 {
            Node::NavActionDabScan
        } else if i == 8 {
            Node::NavActionNavigate
        } else if i == 9 {
            Node::NavActionSelectItem
        } else if i == 10 {
            Node::NavActionSelectPreset
        } else if i == 11 {
            Node::PlayAddPreset
        } else if i == 12 {
            Node::PlayCaps
        } else if i == 13 {
            Node::PlayControl
        } else if i == 14 {
            Node::PlayErrorStr
        } else if i == 15 {
            Node::PlayFrequency
        } else if i == 16 {
            Node::PlayPosition
        } else if i == 17 {
            Node::PlayRate
        } else if i == 18 {
            Node::PlayRepeat
        } else if i == 19 {
            Node::PlayScrobble
        } else if i == 20 {
            Node::PlayShuffle
        } else if i == 21 {
            Node::PlayShuffleStatus
        } else if i == 22 {
            Node::PlaySignalStrength
        } else if i == 23 {
            Node::PlayStatus
        } else if i == 24 {
            Node::PlayInfoAlbum
        } else if i == 25 {
            Node::PlayInfoArtist
        } else if i == 26 {
            Node::PlayInfoDuration
        } else if i == 27 {
            Node::PlayInfoGraphicUri
        } else if i == 28 {
            Node::PlayInfoName
        } else if i == 29 {
            Node::PlayInfoText
        } else if i == 30 {
            Node::PlayServiceIdsDabEnsambleId
        } else if i == 31 {
            Node::PlayServiceIdsDabScids
        } else if i == 32 {
            Node::PlayServiceIdsDabServiceId
        } else if i == 33 {
            Node::PlayServiceIdsEcc
        } else if i == 34 {
            Node::PlayServiceIdsfmRdsPi
        } else if i == 35 {
            Node::SysLang
        } else if i == 36 {
            Node::SysMode
        } else if i == 37 {
            Node::SysPower
        } else if i == 38 {
            Node::SysSleep
        } else if i == 39 {
            Node::SysState
        } else if i == 40 {
            Node::SysAudioEqCustomParam0
        } else if i == 41 {
            Node::SysAudioEqCustomParam1
        } else if i == 42 {
            Node::SysAudioEqLoudness
        } else if i == 43 {
            Node::SysAudioEqPreset
        } else if i == 44 {
            Node::SysAudioMute
        } else if i == 45 {
            Node::SysAudioVolume
        } else if i == 46 {
            Node::SysCapsClockSourceList
        } else if i == 47 {
            Node::SysCapsDabFreqList
        } else if i == 48 {
            Node::SysCapsEqBands
        } else if i == 49 {
            Node::SysCapsEqPresets
        } else if i == 50 {
            Node::SysCapsFmFreqRangeLower
        } else if i == 51 {
            Node::SysCapsFmFreqRangeStepSize
        } else if i == 52 {
            Node::SysCapsFmFreqRangeUpper
        } else if i == 53 {
            Node::SysCapsValidModes
        } else if i == 54 {
            Node::SysCapsVolumeSteps
        } else if i == 55 {
            Node::SysClockDst
        } else if i == 56 {
            Node::SysClockLocalDate
        } else if i == 57 {
            Node::SysClockLocalTime
        } else if i == 58 {
            Node::SysClockMode
        } else if i == 59 {
            Node::SysClockSource
        } else if i == 60 {
            Node::SysClockUtcOffset
        } else if i == 61 {
            Node::SysCfgIrAutoPlayFlag
        } else if i == 62 {
            Node::SysInfoFriendlyName
        } else if i == 63 {
            Node::SysInfoRadioId
        } else if i == 64 {
            Node::SysInfoRadioPin
        } else if i == 65 {
            Node::SysInfoVersion
        } else if i == 66 {
            Node::SysInfoControlName
        } else if i == 67 {
            Node::SysIsuControl
        } else if i == 68 {
            Node::SysIsuState
        } else if i == 69 {
            Node::SysNetIpConfigAddress
        } else if i == 70 {
            Node::SysNetIpConfigDhcp
        } else if i == 71 {
            Node::SysNetIpConfigDnsPrimary
        } else if i == 72 {
            Node::SysNetIpConfigDnsSecundary
        } else if i == 73 {
            Node::SysNetIpConfigGateway
        } else if i == 74 {
            Node::SysNetIpConfigSubnetMask
        } else if i == 75 {
            Node::SysNetIpConfigKeepConnected
        } else if i == 76 {
            Node::SysNetWiredInterfaceEnable
        } else if i == 77 {
            Node::SysNetWiredInterfaceMacAddress
        } else if i == 78 {
            Node::SysNetWlanConnectedSSID
        } else if i == 79 {
            Node::SysNetWlanInterfaceEnable
        } else if i == 80 {
            Node::SysNetWlanInterfaceMacAddress
        } else if i == 81 {
            Node::SysNetWlanRssi
        } else if i == 82 {
            Node::SysNetWlanSetAuthType
        } else if i == 83 {
            Node::SysNetWlanSetEncType
        } else if i == 84 {
            Node::SysRsaPublicKey
        } else {
            Node::SysRsaStatus
        }
    }

    /// The node at place `i` of the table, if the table is that long.
    pub fn nth(i: usize) -> (node: Option<Node>)
        ensures
            node == if i < COUNT {
                Some(Node::nth_spec(i as int))
            } else {
                None
            },
    {
        match i {
            0 => Some(Node::NavList),
            1 => Some(Node::NavNumItems),
            2 => Some(Node::NavPresets),
            3 => Some(Node::NavSearchTerm),
            4 => Some(Node::NavState),
            5 => Some(Node::NavStatus),
            6 => Some(Node::NavDepth),
            7 => Some(Node::NavActionDabScan),
            8 => Some(Node::NavActionNavigate),
            9 => Some(Node::NavActionSelectItem),
            10 => Some(Node::NavActionSelectPreset),
            11 => Some(Node::PlayAddPreset),
            12 => Some(Node::PlayCaps),
            13 => Some(Node::PlayControl),
            14 => Some(Node::PlayErrorStr),
            15 => Some(Node::PlayFrequency),
            16 => Some(Node::PlayPosition),
            17 => Some(Node::PlayRate),
            18 => Some(Node::PlayRepeat),
            19 => Some(Node::PlayScrobble),
            20 => Some(Node::PlayShuffle),
            21 => Some(Node::PlayShuffleStatus),
            22 => Some(Node::PlaySignalStrength),
            23 => Some(Node::PlayStatus),
            24 => Some(Node::PlayInfoAlbum),
            25 => Some(Node::PlayInfoArtist),
            26 => Some(Node::PlayInfoDuration),
            27 => Some(Node::PlayInfoGraphicUri),
            28 => Some(Node::PlayInfoName),
            29 => Some(Node::PlayInfoText),
            30 => Some(Node::PlayServiceIdsDabEnsambleId),
            31 => Some(Node::PlayServiceIdsDabScids),
            32 => Some(Node::PlayServiceIdsDabServiceId),
            33 => Some(Node::PlayServiceIdsEcc),
            34 => Some(Node::PlayServiceIdsfmRdsPi),
            35 => Some(Node::SysLang),
            36 => Some(Node::SysMode),
            37 => Some(Node::SysPower),
            38 => Some(Node::SysSleep),
            39 => Some(Node::SysState),
            40 => Some(Node::SysAudioEqCustomParam0),
            41 => Some(Node::SysAudioEqCustomParam1),
            42 => Some(Node::SysAudioEqLoudness),
            43 => Some(Node::SysAudioEqPreset),
            44 => Some(Node::SysAudioMute),
            45 => Some(Node::SysAudioVolume),
            46 => Some(Node::SysCapsClockSourceList),
            47 => Some(Node::SysCapsDabFreqList),
            48 => Some(Node::SysCapsEqBands),
            49 => Some(Node::SysCapsEqPresets),
            50 => Some(Node::SysCapsFmFreqRangeLower),
            51 => Some(Node::SysCapsFmFreqRangeStepSize),
            52 => Some(Node::SysCapsFmFreqRangeUpper),
            53 => Some(Node::SysCapsValidModes),
            54 => Some(Node::SysCapsVolumeSteps),
            55 => Some(Node::SysClockDst),
            56 => Some(Node::SysClockLocalDate),
            57 => Some(Node::SysClockLocalTime),
            58 => Some(Node::SysClockMode),
            59 => Some(Node::SysClockSource),
            60 => Some(Node::SysClockUtcOffset),
            61 => Some(Node::SysCfgIrAutoPlayFlag),
            62 => Some(Node::SysInfoFriendlyName),
            63 => Some(Node::SysInfoRadioId),
            64 => Some(Node::SysInfoRadioPin),
            65 => Some(Node::SysInfoVersion),
            66 => Some(Node::SysInfoControlName),
            67 => Some(Node::SysIsuControl),
            68 => Some(Node::SysIsuState),
            69 => Some(Node::SysNetIpConfigAddress),
            70 => Some(Node::SysNetIpConfigDhcp),
            71 => Some(Node::SysNetIpConfigDnsPrimary),
            72 => Some(Node::SysNetIpConfigDnsSecundary),
            73 => Some(Node::SysNetIpConfigGateway),
            74 => Some(Node::SysNetIpConfigSubnetMask),
            75 => Some(Node::SysNetIpConfigKeepConnected),
            76 => Some(Node::SysNetWiredInterfaceEnable),
            77 => Some(Node::SysNetWiredInterfaceMacAddress),
            78 => Some(Node::SysNetWlanConnectedSSID),
            79 => Some(Node::SysNetWlanInterfaceEnable),
            80 => Some(Node::SysNetWlanInterfaceMacAddress),
            81 => Some(Node::SysNetWlanRssi),
            82 => Some(Node::SysNetWlanSetAuthType),
            83 => Some(Node::SysNetWlanSetEncType),
            84 => Some(Node::SysRsaPublicKey),
            85 => Some(Node::SysRsaStatus),
            _ => None,
        }
    }

    /// Every node has its place in the table.
    pub proof fn lemma_index(self)
        ensures
            0 <= self.index() < COUNT,
            Node::nth_spec(self.index()) == self,
    {
    }

    /// The node whose path `path` spells, if there is one.
    pub open spec fn named(path: Seq<u8>) -> Option<Node> {
        if exists|n: Node| encode_utf8(#[trigger] n.path()) == path {
            Some(choose|n: Node| encode_utf8(#[trigger] n.path()) == path)
        } else {
            None
        }
    }

    /// The mark of the node's path, read off the table.
    spec fn mark_of(self) -> (nat, char, char, char) {
        match self {
            Node::NavList => (18, 't', 'i', 'n'),
            Node::NavNumItems => (22, 's', 'e', 'n'),
            Node::NavPresets => (21, 's', 'e', '.'),
            Node::NavSearchTerm => (24, 'm', 'e', 'a'),
            Node::NavState => (19, 'e', 'a', 'a'),
            Node::NavStatus => (20, 's', 't', 'v'),
            Node::NavDepth => (19, 'h', 'p', 'a'),
            Node::NavActionDabScan => (28, 'n', 'c', '.'),
            Node::NavActionNavigate => (29, 'e', 'a', 'n'),
            Node::NavActionSelectItem => (31, 'm', 't', 'l'),
            Node::NavActionSelectPreset => (33, 't', 's', 'c'),
            Node::PlayAddPreset => (24, 't', 's', 'd'),
            Node::PlayCaps => (19, 's', 'a', 'l'),
            Node::PlayControl => (22, 'l', 'r', '.'),
            Node::PlayErrorStr => (23, 'r', 's', 'e'),
            Node::PlayFrequency => (24, 'y', 'n', 'r'),
            Node::PlayPosition => (23, 'n', 'i', 'p'),
            Node::PlayRate => (19, 'e', 'a', 'l'),
            Node::PlayRepeat => (21, 't', 'e', 'y'),
            Node::PlayScrobble => (23, 'e', 'b', 's'),
            Node::PlayShuffle => (22, 'e', 'f', '.'),
            Node::PlayShuffleStatus => (28, 's', 't', 'l'),
            Node::PlaySignalStrength => (29, 'h', 'g', 's'),
            Node::PlayStatus => (21, 's', 't', 'y'),
            Node::PlayInfoAlbum => (25, 'm', 'b', 'f'),
            Node::PlayInfoArtist => (26, 't', 'i', 'o'),
            Node::PlayInfoDuration => (28, 'n', 'i', 'd'),
            Node::PlayInfoGraphicUri => (30, 'i', 'u', 'a'),
            Node::PlayInfoName => (24, 'e', 'a', 'n'),
            Node::PlayInfoText => (24, 't', 'e', 'n'),
            Node::PlayServiceIdsDabEnsambleId => (39, 'd', 'e', 's'),
            Node::PlayServiceIdsDabScids => (34, 's', 'i', 'd'),
            Node::PlayServiceIdsDabServiceId => (38, 'd', 'e', 'e'),
            Node::PlayServiceIdsEcc => (29, 'c', 'e', 'e'),
            Node::PlayServiceIdsfmRdsPi => (33, 'i', 's', '.'),
            Node::SysLang => (18, 'g', 'a', 's'),
            Node::SysMode => (18, 'e', 'o', 's'),
            Node::SysPower => (19, 'r', 'w', 'y'),
            Node::SysSleep => (19, 'p', 'e', 'y'),
            Node::SysState => (19, 'e', 'a', 'y'),
            Node::SysAudioEqCustomParam0 => (35, '0', 'a', 'm'),
            Node::SysAudioEqCustomParam1 => (35, '1', 'a', 'm'),
            Node::SysAudioEqLoudness => (30, 's', 'e', 'l'),
            Node::SysAudioEqPreset => (28, 't', 's', 'e'),
            Node::SysAudioMute => (24, 'e', 'u', 'd'),
            Node::SysAudioVolume => (26, 'e', 'u', 'o'),
            Node::SysCapsClockSourceList => (34, 't', 'i', 'u'),
            Node::SysCapsDabFreqList => (30, 't', 'i', 'f'),
            Node::SysCapsEqBands => (26, 's', 'n', '.'),
            Node::SysCapsEqPresets => (28, 's', 'e', 'q'),
            Node::SysCapsFmFreqRangeLower => (36, 'r', 'w', 'g'),
            Node::SysCapsFmFreqRangeStepSize => (39, 'e', 'i', 's'),
            Node::SysCapsFmFreqRangeUpper => (36, 'r', 'p', 'g'),
            Node::SysCapsValidModes => (29, 's', 'd', 'l'),
            Node::SysCapsVolumeSteps => (30, 's', 'e', 'u'),
            Node::SysClockDst => (23, 't', 'd', 'l'),
            Node::SysClockLocalDate => (29, 'e', 'a', 'o'),
            Node::SysClockLocalTime => (29, 'e', 'i', 'o'),
            Node::SysClockMode => (24, 'e', 'o', 'o'),
            Node::SysClockSource => (26, 'e', 'r', 'k'),
            Node::SysClockUtcOffset => (29, 't', 's', 't'),
            Node::SysCfgIrAutoPlayFlag => (34, 'g', 'l', 'p'),
            Node::SysInfoFriendlyName => (31, 'e', 'a', 'n'),
            Node::SysInfoRadioId => (26, 'd', 'o', '.'),
            Node::SysInfoRadioPin => (27, 'n', 'p', 'r'),
            Node::SysInfoVersion => (26, 'n', 'i', '.'),
            Node::SysInfoControlName => (33, 'e', 'a', 'l'),
            Node::SysIsuControl => (25, 'l', 'r', '.'),
            Node::SysIsuState => (23, 'e', 'a', 's'),
            Node::SysNetIpConfigAddress => (30, 's', 'e', '.'),
            Node::SysNetIpConfigDhcp => (27, 'p', 'h', 'f'),
            Node::SysNetIpConfigDnsPrimary => (33, 'y', 'a', 's'),
            Node::SysNetIpConfigDnsSecundary => (35, 'y', 'a', 'e'),
            Node::SysNetIpConfigGateway => (30, 'y', 'w', '.'),
            Node::SysNetIpConfigSubnetMask => (33, 'k', 'a', 'b'),
            Node::SysNetIpConfigKeepConnected => (36, 'd', 't', 'o'),
            Node::SysNetWiredInterfaceEnable => (35, 'e', 'b', 'c'),
            Node::SysNetWiredInterfaceMacAddress => (30, 's', 'e', 'c'),
            Node::SysNetWlanConnectedSSID => (32, 'd', 's', 'c'),
            Node::SysNetWlanInterfaceEnable => (34, 'e', 'b', 'c'),
            Node::SysNetWlanInterfaceMacAddress => (29, 's', 'e', 'c'),
            Node::SysNetWlanRssi => (23, 'i', 's', 'l'),
            Node::SysNetWlanSetAuthType => (30, 'e', 'y', 'a'),
            Node::SysNetWlanSetEncType => (29, 'e', 'y', 't'),
            Node::SysRsaPublicKey => (27, 'y', 'k', 'u'),
            Node::SysRsaStatus => (24, 's', 't', 'a'),
        }
    }

    proof fn lemma_mark(self)
        ensures
            mark(self.path()) == self.mark_of(),
    {
        match self {
            Node::NavList => {
                reveal_strlit("netremote.nav.list");
            },
            Node::NavNumItems => {
                reveal_strlit("netremote.nav.numItems");
            },
            Node::NavPresets => {
                reveal_strlit("netremote.nav.presets");
            },
            Node::NavSearchTerm => {
                reveal_strlit("netremote.nav.searchTerm");
            },
            Node::NavState => {
                reveal_strlit("netremote.nav.state");
            },
            Node::NavStatus => {
                reveal_strlit("netremote.nav.status");
            },
            Node::NavDepth => {
                reveal_strlit("netremote.nav.depth");
            },
            Node::NavActionDabScan => {
                reveal_strlit("netremote.nav.action.dabScan");
            },
            Node::NavActionNavigate => {
                reveal_strlit("netremote.nav.action.navigate");
            },
            Node::NavActionSelectItem => {
                reveal_strlit("netremote.nav.action.selectItem");
            },
            Node::NavActionSelectPreset => {
                reveal_strlit("netremote.nav.action.selectPreset");
            },
            Node::PlayAddPreset => {
                reveal_strlit("netremote.play.addpreset");
            },
            Node::PlayCaps => {
                reveal_strlit("netremote.play.caps");
            },
            Node::PlayControl => {
                reveal_strlit("netremote.play.control");
            },
            Node::PlayErrorStr => {
                reveal_strlit("netremote.play.errorstr");
            },
            Node::PlayFrequency => {
                reveal_strlit("netremote.play.frequency");
            },
            Node::PlayPosition => {
                reveal_strlit("netremote.play.position");
            },
            Node::PlayRate => {
                reveal_strlit("netremote.play.rate");
            },
            Node::PlayRepeat => {
                reveal_strlit("netremote.play.repeat");
            },
            Node::PlayScrobble => {
                reveal_strlit("netremote.play.scrobble");
            },
            Node::PlayShuffle => {
                reveal_strlit("netremote.play.shuffle");
            },
            Node::PlayShuffleStatus => {
                reveal_strlit("netremote.play.shufflestatus");
            },
            Node::PlaySignalStrength => {
                reveal_strlit("netremote.play.signalstrength");
            },
            Node::PlayStatus => {
                reveal_strlit("netremote.play.status");
            },
            Node::PlayInfoAlbum => {
                reveal_strlit("netremote.play.info.album");
            },
            Node::PlayInfoArtist => {
                reveal_strlit("netremote.play.info.artist");
            },
            Node::PlayInfoDuration => {
                reveal_strlit("netremote.play.info.duration");
            },
            Node::PlayInfoGraphicUri => {
                reveal_strlit("netremote.play.info.graphicuri");
            },
            Node::PlayInfoName => {
                reveal_strlit("netremote.play.info.name");
            },
            Node::PlayInfoText => {
                reveal_strlit("netremote.play.info.text");
            },
            Node::PlayServiceIdsDabEnsambleId => {
                reveal_strlit("netremote.play.serviceids.dabinsembleid");
            },
            Node::PlayServiceIdsDabScids => {
                reveal_strlit("netremote.play.serviceids.dabscids");
            },
            Node::PlayServiceIdsDabServiceId => {
                reveal_strlit("netremote.play.serviceids.dabserviceid");
            },
            Node::PlayServiceIdsEcc => {
                reveal_strlit("netremote.play.serviceids.ecc");
            },
            Node::PlayServiceIdsfmRdsPi => {
                reveal_strlit("netremote.play.serviceids.fmrdspi");
            },
            Node::SysLang => {
                reveal_strlit("netremote.sys.lang");
            },
            Node::SysMode => {
                reveal_strlit("netremote.sys.mode");
            },
            Node::SysPower => {
                reveal_strlit("netremote.sys.power");
            },
            Node::SysSleep => {
                reveal_strlit("netremote.sys.sleep");
            },
            Node::SysState => {
                reveal_strlit("netremote.sys.state");
            },
            Node::SysAudioEqCustomParam0 => {
                reveal_strlit("netremote.sys.audio.eqcustom.param0");
            },
            Node::SysAudioEqCustomParam1 => {
                reveal_strlit("netremote.sys.audio.eqcustom.param1");
            },
            Node::SysAudioEqLoudness => {
                reveal_strlit("netremote.sys.audio.eqloudness");
            },
            Node::SysAudioEqPreset => {
                reveal_strlit("netremote.sys.audio.eqpreset");
            },
            Node::SysAudioMute => {
                reveal_strlit("netremote.sys.audio.mute");
            },
            Node::SysAudioVolume => {
                reveal_strlit("netremote.sys.audio.volume");
            },
            Node::SysCapsClockSourceList => {
                reveal_strlit("netremote.sys.caps.clocksourcelist");
            },
            Node::SysCapsDabFreqList => {
                reveal_strlit("netremote.sys.caps.dabfreqlist");
            },
            Node::SysCapsEqBands => {
                reveal_strlit("netremote.sys.caps.eqbands");
            },
            Node::SysCapsEqPresets => {
                reveal_strlit("netremote.sys.caps.eqpresets");
            },
            Node::SysCapsFmFreqRangeLower => {
                reveal_strlit("netremote.sys.caps.fmfreqrange.lower");
            },
            Node::SysCapsFmFreqRangeStepSize => {
                reveal_strlit("netremote.sys.caps.fmfreqrange.stepsize");
            },
            Node::SysCapsFmFreqRangeUpper => {
                reveal_strlit("netremote.sys.caps.fmfreqrange.upper");
            },
            Node::SysCapsValidModes => {
                reveal_strlit("netremote.sys.caps.validmodes");
            },
            Node::SysCapsVolumeSteps => {
                reveal_strlit("netremote.sys.caps.volumesteps");
            },
            Node::SysClockDst => {
                reveal_strlit("netremote.sys.clock.dst");
            },
            Node::SysClockLocalDate => {
                reveal_strlit("netremote.sys.clock.localdate");
            },
            Node::SysClockLocalTime => {
                reveal_strlit("netremote.sys.clock.localtime");
            },
            Node::SysClockMode => {
                reveal_strlit("netremote.sys.clock.mode");
            },
            Node::SysClockSource => {
                reveal_strlit("netremote.sys.clock.source");
            },
            Node::SysClockUtcOffset => {
                reveal_strlit("netremote.sys.clock.utcoffset");
            },
            Node::SysCfgIrAutoPlayFlag => {
                reveal_strlit("netremote.sys.clock.irautoplayflag");
            },
            Node::SysInfoFriendlyName => {
                reveal_strlit("netremote.sys.info.friendlyname");
            },
            Node::SysInfoRadioId => {
                reveal_strlit("netremote.sys.info.radioid");
            },
            Node::SysInfoRadioPin => {
                reveal_strlit("netremote.sys.info.radiopin");
            },
            Node::SysInfoVersion => {
                reveal_strlit("netremote.sys.info.version");
            },
            Node::SysInfoControlName => {
                reveal_strlit("netremote.sys.info.controllername");
            },
            Node::SysIsuControl => {
                reveal_strlit("netremote.sys.isu.control");
            },
            Node::SysIsuState => {
                reveal_strlit("netremote.sys.isu.state");
            },
            Node::SysNetIpConfigAddress => {
                reveal_strlit("netremote.net.ipconfig.address");
            },
            Node::SysNetIpConfigDhcp => {
                reveal_strlit("netremote.net.ipconfig.dhcp");
            },
            Node::SysNetIpConfigDnsPrimary => {
                reveal_strlit("netremote.net.ipconfig.dnsprimary");
            },
            Node::SysNetIpConfigDnsSecundary => {
                reveal_strlit("netremote.net.ipconfig.dnssecundary");
            },
            Node::SysNetIpConfigGateway => {
                reveal_strlit("netremote.net.ipconfig.gateway");
            },
            Node::SysNetIpConfigSubnetMask => {
                reveal_strlit("netremote.net.ipconfig.subnetmask");
            },
            Node::SysNetIpConfigKeepConnected => {
                reveal_strlit("netremote.net.ipconfig.keepconnected");
            },
            Node::SysNetWiredInterfaceEnable => {
                reveal_strlit("netremote.net.wired.interfaceenable");
            },
            Node::SysNetWiredInterfaceMacAddress => {
                reveal_strlit("netremote.net.wired.macaddress");
            },
            Node::SysNetWlanConnectedSSID => {
                reveal_strlit("netremote.net.wlan.connectedssid");
            },
            Node::SysNetWlanInterfaceEnable => {
                reveal_strlit("netremote.net.wlan.interfaceenable");
            },
            Node::SysNetWlanInterfaceMacAddress => {
                reveal_strlit("netremote.net.wlan.macaddress");
            },
            Node::SysNetWlanRssi => {
                reveal_strlit("netremote.net.wlan.rsii");
            },
            Node::SysNetWlanSetAuthType => {
                reveal_strlit("netremote.net.wlan.setauthtype");
            },
            Node::SysNetWlanSetEncType => {
                reveal_strlit("netremote.net.wlan.setenctype");
            },
            Node::SysRsaPublicKey => {
                reveal_strlit("netremote.sys.rsa.publickey");
            },
            Node::SysRsaStatus => {
                reveal_strlit("netremote.sys.rsa.status");
            },
        }
    }

    /// No two nodes share a path.
    pub proof fn lemma_path_injective(a: Node, b: Node)
        requires
            a.path() == b.path(),
        ensures
            a == b,
    {
        a.lemma_mark();
        b.lemma_mark();
    }

    /// No two nodes share the bytes of a path.
    pub proof fn lemma_bytes_injective(a: Node, b: Node)
        requires
            encode_utf8(a.path()) == encode_utf8(b.path()),
        ensures
            a == b,
    {
        encode_utf8_decode_utf8(a.path());
        encode_utf8_decode_utf8(b.path());
        Node::lemma_path_injective(a, b);
    }

    /// Parsing a node's path gives the node back.
    pub proof fn lemma_round_trip(self)
        ensures
            Node::named(encode_utf8(self.path())) == Some(self),
    {
        let found = choose|n: Node| encode_utf8(#[trigger] n.path()) == encode_utf8(self.path());
        Node::lemma_bytes_injective(found, self);
    }

    /// The node whose path is written in `path`, if there is one.
    pub fn parse(path: &[u8]) -> (node: Option<Node>)
        ensures
            node == Node::named(path@),
            match node {
                Some(n) => path@ == encode_utf8(n.path()),
                None => forall|n: Node| path@ != encode_utf8(#[trigger] n.path()),
            },
    {
        let mut i: usize = 0;
        while i < COUNT
            invariant
                i <= COUNT,
                forall|j: int| 0 <= j < i ==> path@ != encode_utf8(#[trigger] Node::nth_spec(j).path()),
            decreases COUNT - i,
        {
            if let Some(node) = Node::nth(i) {
                if bytes_are(path, node.as_str()) {
                    proof {
                        let found = choose|n: Node| encode_utf8(#[trigger] n.path()) == path@;
                        Node::lemma_bytes_injective(found, node);
                    }
                    return Some(node);
                }
            }
            i += 1;
        }
        proof {
            assert forall|n: Node| path@ != encode_utf8(#[trigger] n.path()) by {
                n.lemma_index();
            }
        }
        None
    }

    /// The node that `value` names. An unknown path is an internal error.
    pub fn try_from(value: String) -> (node: Result<Node, Error>)
        ensures
            match node {
                Ok(n) => value@ == n.path(),
                Err(e) => e == Error::InternalError && forall|n: Node| value@ != #[trigger] n.path(),
            },
    {
        match Node::parse(value.as_str().as_bytes()) {
            Some(n) => {
                proof {
                    encode_utf8_decode_utf8(value@);
                    encode_utf8_decode_utf8(n.path());
                }
                Ok(n)
            },
            None => Err(Error::InternalError),
        }
    }
}

} // verus!
