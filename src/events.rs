//! What the coordinator hears from the profile backends, and what it asks of
//! the backends, the upper layer and the timers in return.
use vstd::prelude::*;

use crate::address::RawAddress;
use crate::profile::Profile;
use crate::telephony::{CallInfo, CallView, PhoneState, TelephonyDeviceStatus, calls_view};

verus! {

#[derive(Clone, Copy, Debug, PartialEq, Eq, Structural)]
pub enum BtStatus {
    Success,
    Fail,
    NotReady,
    Busy,
    Unsupported,
}

#[derive(Clone, Copy, Debug, PartialEq, Eq, Structural)]
pub enum BtConnectionDirection {
    Unknown,
    Outgoing,
    Incoming,
}

/// A2DP connection states.
#[derive(Clone, Copy, Debug, PartialEq, Eq, Structural)]
pub enum BtavConnectionState {
    Disconnected,
    Connecting,
    Connected,
    Disconnecting,
}

/// A2DP audio states.
#[derive(Clone, Copy, Debug, PartialEq, Eq, Structural)]
pub enum BtavAudioState {
    RemoteSuspend,
    Stopped,
    Started,
}

/// HFP connection states; `SlcConnected` is the usable one.
#[derive(Clone, Copy, Debug, PartialEq, Eq, Structural)]
pub enum BthfConnectionState {
    Disconnected,
    Connecting,
    Connected,
    SlcConnected,
    Disconnecting,
}

/// HFP audio (SCO) states.
#[derive(Clone, Copy, Debug, PartialEq, Eq, Structural)]
pub enum BthfAudioState {
    Disconnected,
    Connecting,
    Connected,
    Disconnecting,
}

/// Summary of a profile's connections over all devices.
#[derive(Clone, Copy, Debug, PartialEq, Eq, Structural)]
pub enum ProfileConnectionState {
    Disconnected,
    Disconnecting,
    Connecting,
    Connected,
    Active,
}

/// Call hold commands (AT+CHLD) that a headset may send.
#[derive(Clone, Copy, Debug, PartialEq, Eq, Structural)]
pub enum CallHoldCommand {
    ReleaseHeld,
    ReleaseActiveAcceptHeld,
    HoldActiveAcceptHeld,
    AddHeldToConf,
}

/// The speech codecs that a headset supports, as flags.
#[derive(Clone, Copy, Debug, PartialEq, Eq, Structural)]
pub struct HfpCodecCapability {
    pub bits: u8,
}

pub const HFP_CODEC_CVSD: u8 = 1;

pub const HFP_CODEC_MSBC: u8 = 2;

impl HfpCodecCapability {
    pub fn unsupported() -> (r: HfpCodecCapability)
        ensures
            r.bits == 0,
    {
        HfpCodecCapability { bits: 0 }
    }

    pub fn cvsd() -> (r: HfpCodecCapability)
        ensures
            r.bits == HFP_CODEC_CVSD,
    {
        HfpCodecCapability { bits: HFP_CODEC_CVSD }
    }

    pub fn cvsd_msbc() -> (r: HfpCodecCapability)
        ensures
            r.bits == 3,
    {
        HfpCodecCapability { bits: 3 }
    }
}

/// One codec configuration that an A2DP sink offers.
#[derive(Clone, Copy, Debug, PartialEq, Eq, Structural)]
pub struct A2dpCodecConfig {
    pub codec_type: i32,
    pub codec_priority: i32,
    pub sample_rate: i32,
    pub bits_per_sample: i32,
    pub channel_mode: i32,
    pub codec_specific_1: i64,
    pub codec_specific_2: i64,
    pub codec_specific_3: i64,
    pub codec_specific_4: i64,
}

/// Media metadata handed to the AVRCP target.
#[derive(Clone, Debug)]
pub struct PlayerMetadata {
    pub title: String,
    pub artist: String,
    pub album: String,
    pub length_us: i64,
}

pub enum A2dpCallbacks {
    ConnectionState(RawAddress, BtavConnectionState, BtStatus),
    AudioState(RawAddress, BtavAudioState),
    AudioConfig(RawAddress, A2dpCodecConfig, Vec<A2dpCodecConfig>, Vec<A2dpCodecConfig>),
    MandatoryCodecPreferred(RawAddress),
}

pub enum AvrcpCallbacks {
    AvrcpDeviceConnected(RawAddress, bool),
    AvrcpDeviceDisconnected(RawAddress),
    AvrcpAbsoluteVolumeUpdate(u8),
    AvrcpSendKeyEvent(u8, u8),
    AvrcpSetActiveDevice(RawAddress),
}

pub enum HfpCallbacks {
    ConnectionState(BthfConnectionState, RawAddress),
    AudioState(BthfAudioState, RawAddress),
    VolumeUpdate(u8, RawAddress),
    BatteryLevelUpdate(u8, RawAddress),
    CapsUpdate(bool, RawAddress),
    IndicatorQuery(RawAddress),
    CurrentCallsQuery(RawAddress),
    AnswerCall(RawAddress),
    HangupCall(RawAddress),
    DialCall(String, RawAddress),
    CallHold(CallHoldCommand, RawAddress),
}

/// Actions that `BluetoothMedia` can take on behalf of the stack.
pub enum MediaActions {
    Connect(String),
    Disconnect(String),
}

/// A device announced to the upper layer as ready for audio.
#[derive(Clone, Debug)]
pub struct BluetoothAudioDevice {
    pub address: String,
    pub name: String,
    pub a2dp_caps: Vec<A2dpCodecConfig>,
    pub hfp_cap: HfpCodecCapability,
    pub absolute_volume: bool,
}

pub struct AudioDeviceView {
    pub address: Seq<char>,
    pub name: Seq<char>,
    pub a2dp_caps: Seq<A2dpCodecConfig>,
    pub hfp_cap: HfpCodecCapability,
    pub absolute_volume: bool,
}

impl View for BluetoothAudioDevice {
    type V = AudioDeviceView;

    open spec fn view(&self) -> AudioDeviceView {
        AudioDeviceView {
            address: self.address@,
            name: self.name@,
            a2dp_caps: self.a2dp_caps@,
            hfp_cap: self.hfp_cap,
            absolute_volume: self.absolute_volume,
        }
    }
}

impl BluetoothAudioDevice {
    pub fn new(
        address: String,
        name: String,
        a2dp_caps: Vec<A2dpCodecConfig>,
        hfp_cap: HfpCodecCapability,
        absolute_volume: bool,
    ) -> (r: BluetoothAudioDevice)
        ensures
            r.address == address,
            r.name == name,
            r.a2dp_caps == a2dp_caps,
            r.hfp_cap == hfp_cap,
            r.absolute_volume == absolute_volume,
    {
        BluetoothAudioDevice { address, name, a2dp_caps, hfp_cap, absolute_volume }
    }
}

/// Work that the coordinator hands out: to the profile backends, to the
/// upper layer's listeners, to the timers, to the key injector and to the
/// battery reports. They are carried out in the order given.
pub enum MediaEffect {
    /// Upper layer: a device is ready for audio.
    DeviceAdded(BluetoothAudioDevice),
    /// Upper layer: an announced device is gone.
    DeviceRemoved(RawAddress),
    AbsoluteVolumeSupportedChanged(bool),
    AbsoluteVolumeChanged(u8),
    HfpVolumeChanged(u8, RawAddress),
    HfpAudioDisconnected(RawAddress),
    /// Timers: fire the `Retry` stage at `retry_at` when given, and after it the
    /// `GiveUp` stage at `give_up_at` (milliseconds).
    ArmFallback { addr: RawAddress, token: u64, retry_at: Option<u64>, give_up_at: u64 },
    CancelFallback { addr: RawAddress, token: u64 },
    /// Backends: bring up the A2DP, AVRCP and HFP backends.
    InitializeBackends,
    EnableProfile(Profile),
    DisableProfile(Profile),
    ConnectProfile(Profile, RawAddress),
    DisconnectProfile(Profile, RawAddress),
    SetActiveDevice(RawAddress),
    SetHfpActiveDevice(RawAddress),
    SetAudioConfig(i32, i32, i32),
    SetVolume(i8),
    SetHfpVolume(i8, RawAddress),
    StartAudioRequest,
    StopAudioRequest,
    ConnectAudio(RawAddress, bool, bool),
    DisconnectAudio(RawAddress),
    IndicatorQueryResponse(TelephonyDeviceStatus, PhoneState, RawAddress),
    CurrentCallsQueryResponse(Vec<CallInfo>, RawAddress),
    SimpleAtResponse(bool, RawAddress),
    DeviceStatusNotification(TelephonyDeviceStatus, RawAddress),
    PhoneStateChange(PhoneState, String, RawAddress),
    SetPlaybackStatus(String),
    SetPosition(i64),
    SetMetadata(PlayerMetadata),
    /// Key injector: a keyboard for the device, named after it.
    UinputCreate(String, RawAddress),
    UinputClose(RawAddress),
    UinputSendKey(u8, u8),
    UinputSetActiveDevice(RawAddress),
    /// Battery reports: a headset's battery level.
    BatteryLevel(RawAddress, u8),
}

/// An effect as the contracts see it.
pub enum EffectView {
    DeviceAdded(AudioDeviceView),
    DeviceRemoved(RawAddress),
    AbsoluteVolumeSupportedChanged(bool),
    AbsoluteVolumeChanged(u8),
    HfpVolumeChanged(u8, RawAddress),
    HfpAudioDisconnected(RawAddress),
    ArmFallback { addr: RawAddress, token: u64, retry_at: Option<u64>, give_up_at: u64 },
    CancelFallback { addr: RawAddress, token: u64 },
    InitializeBackends,
    EnableProfile(Profile),
    DisableProfile(Profile),
    ConnectProfile(Profile, RawAddress),
    DisconnectProfile(Profile, RawAddress),
    SetActiveDevice(RawAddress),
    SetHfpActiveDevice(RawAddress),
    SetAudioConfig(i32, i32, i32),
    SetVolume(i8),
    SetHfpVolume(i8, RawAddress),
    StartAudioRequest,
    StopAudioRequest,
    ConnectAudio(RawAddress, bool, bool),
    DisconnectAudio(RawAddress),
    IndicatorQueryResponse(TelephonyDeviceStatus, PhoneState, RawAddress),
    CurrentCallsQueryResponse(Seq<CallView>, RawAddress),
    SimpleAtResponse(bool, RawAddress),
    DeviceStatusNotification(TelephonyDeviceStatus, RawAddress),
    PhoneStateChange(PhoneState, Seq<char>, RawAddress),
    SetPlaybackStatus(Seq<char>),
    SetPosition(i64),
    SetMetadata(Seq<char>, Seq<char>, Seq<char>, i64),
    UinputCreate(Seq<char>, RawAddress),
    UinputClose(RawAddress),
    UinputSendKey(u8, u8),
    UinputSetActiveDevice(RawAddress),
    BatteryLevel(RawAddress, u8),
}

impl View for MediaEffect {
    type V = EffectView;

    open spec fn view(&self) -> EffectView {
        match self {
            MediaEffect::DeviceAdded(d) => EffectView::DeviceAdded(d@),
            MediaEffect::DeviceRemoved(a) => EffectView::DeviceRemoved(*a),
            MediaEffect::AbsoluteVolumeSupportedChanged(b) => EffectView::AbsoluteVolumeSupportedChanged(*b),
            MediaEffect::AbsoluteVolumeChanged(v) => EffectView::AbsoluteVolumeChanged(*v),
            MediaEffect::HfpVolumeChanged(v, a) => EffectView::HfpVolumeChanged(*v, *a),
            MediaEffect::HfpAudioDisconnected(a) => EffectView::HfpAudioDisconnected(*a),
            MediaEffect::ArmFallback { addr, token, retry_at, give_up_at } => EffectView::ArmFallback {
                addr: *addr,
                token: *token,
                retry_at: *retry_at,
                give_up_at: *give_up_at,
            },
            MediaEffect::CancelFallback { addr, token } => EffectView::CancelFallback {
                addr: *addr,
                token: *token,
            },
            MediaEffect::InitializeBackends => EffectView::InitializeBackends,
            MediaEffect::EnableProfile(p) => EffectView::EnableProfile(*p),
            MediaEffect::DisableProfile(p) => EffectView::DisableProfile(*p),
            MediaEffect::ConnectProfile(p, a) => EffectView::ConnectProfile(*p, *a),
            MediaEffect::DisconnectProfile(p, a) => EffectView::DisconnectProfile(*p, *a),
            MediaEffect::SetActiveDevice(a) => EffectView::SetActiveDevice(*a),
            MediaEffect::SetHfpActiveDevice(a) => EffectView::SetHfpActiveDevice(*a),
            MediaEffect::SetAudioConfig(x, y, z) => EffectView::SetAudioConfig(*x, *y, *z),
            MediaEffect::SetVolume(v) => EffectView::SetVolume(*v),
            MediaEffect::SetHfpVolume(v, a) => EffectView::SetHfpVolume(*v, *a),
            MediaEffect::StartAudioRequest => EffectView::StartAudioRequest,
            MediaEffect::StopAudioRequest => EffectView::StopAudioRequest,
            MediaEffect::ConnectAudio(a, o, f) => EffectView::ConnectAudio(*a, *o, *f),
            MediaEffect::DisconnectAudio(a) => EffectView::DisconnectAudio(*a),
            MediaEffect::IndicatorQueryResponse(s, p, a) => EffectView::IndicatorQueryResponse(
                *s,
                *p,
                *a,
            ),
            MediaEffect::CurrentCallsQueryResponse(c, a) => EffectView::CurrentCallsQueryResponse(
                calls_view(c@),
                *a,
            ),
            MediaEffect::SimpleAtResponse(ok, a) => EffectView::SimpleAtResponse(*ok, *a),
            MediaEffect::DeviceStatusNotification(s, a) => EffectView::DeviceStatusNotification(
                *s,
                *a,
            ),
            MediaEffect::PhoneStateChange(p, n, a) => EffectView::PhoneStateChange(*p, n@, *a),
            MediaEffect::SetPlaybackStatus(s) => EffectView::SetPlaybackStatus(s@),
            MediaEffect::SetPosition(p) => EffectView::SetPosition(*p),
            MediaEffect::SetMetadata(m) => EffectView::SetMetadata(
                m.title@,
                m.artist@,
                m.album@,
                m.length_us,
            ),
            MediaEffect::UinputCreate(n, a) => EffectView::UinputCreate(n@, *a),
            MediaEffect::UinputClose(a) => EffectView::UinputClose(*a),
            MediaEffect::UinputSendKey(k, v) => EffectView::UinputSendKey(*k, *v),
            MediaEffect::UinputSetActiveDevice(a) => EffectView::UinputSetActiveDevice(*a),
            MediaEffect::BatteryLevel(a, l) => EffectView::BatteryLevel(*a, *l),
        }
    }
}

pub open spec fn effects_view(v: Seq<MediaEffect>) -> Seq<EffectView> {
    v.map_values(|e: MediaEffect| e@)
}

} // verus!
