//! The media coordinator: it follows the A2DP, AVRCP and HFP events of each
//! device, drives the device through its connection lifecycle, answers the
//! headsets' telephony queries and commands, and hands out the work that
//! follows as effects, in order.
use vstd::prelude::*;
use vstd::string::StringSliceAdditionalSpecFns;
use vstd::utf8::{encode_scalar, encode_utf8};

use crate::addr_map::AddrMap;
use crate::address::{RawAddress, address_text};
use crate::events::{
    A2dpCallbacks,
    A2dpCodecConfig,
    AudioDeviceView,
    AvrcpCallbacks,
    BluetoothAudioDevice,
    BtConnectionDirection,
    BtavAudioState,
    BtavConnectionState,
    BthfAudioState,
    BthfConnectionState,
    CallHoldCommand,
    EffectView,
    HfpCallbacks,
    HfpCodecCapability,
    HFP_CODEC_MSBC,
    MediaActions,
    MediaEffect,
    PlayerMetadata,
    ProfileConnectionState,
    effects_view,
};
use crate::lifecycle::{
    DeviceLifecycle,
    FallbackAction,
    FallbackStage,
    LifecycleAction,
    LifecycleStep,
    critical_loss,
    critical_loss_spec,
    fallback,
    fallback_spec,
    profile_change,
    profile_change_spec,
};
use crate::profile::{Profile, ProfileSet};
use crate::telephony::{
    CallInfo,
    CallState,
    CallView,
    PhoneState,
    Telephony,
    TelephonyDeviceStatus,
    answer_rel,
    calls_view,
    hangup_rel,
    hold_rel,
    new_call_rel,
    synthetic_rel,
};

verus! {

/// What the adapter knows of a remote device.
pub struct RemoteDevice {
    pub name: String,
    /// The profiles that the device advertises.
    pub profiles: ProfileSet,
}

/// The coordinator's state as its contracts see it.
pub struct MediaModel {
    /// The profile backends were brought up.
    pub initialized: bool,
    pub avrcp_direction: BtConnectionDirection,
    pub a2dp_states: Map<RawAddress, BtavConnectionState>,
    pub a2dp_audio_state: Map<RawAddress, BtavAudioState>,
    pub a2dp_caps: Map<RawAddress, Seq<A2dpCodecConfig>>,
    pub hfp_states: Map<RawAddress, BthfConnectionState>,
    pub hfp_audio_state: Map<RawAddress, BthfAudioState>,
    pub hfp_cap: Map<RawAddress, HfpCodecCapability>,
    pub connected_profiles: Map<RawAddress, ProfileSet>,
    /// Connection lifecycle of each device that has a profile connected.
    pub devices: Map<RawAddress, DeviceLifecycle>,
    pub remote_names: Map<RawAddress, Seq<char>>,
    pub remote_profiles: Map<RawAddress, ProfileSet>,
    pub absolute_volume: bool,
    pub enabled_profiles: ProfileSet,
    pub delay_enable_profiles: ProfileSet,
    pub telephony: Telephony,
    pub next_token: u64,
    /// Effects handed out and not yet taken.
    pub effects: Seq<EffectView>,
}

pub struct BluetoothMedia {
    initialized: bool,
    avrcp_direction: BtConnectionDirection,
    a2dp_states: AddrMap<BtavConnectionState>,
    a2dp_audio_state: AddrMap<BtavAudioState>,
    a2dp_caps: AddrMap<Vec<A2dpCodecConfig>>,
    hfp_states: AddrMap<BthfConnectionState>,
    hfp_audio_state: AddrMap<BthfAudioState>,
    hfp_cap: AddrMap<HfpCodecCapability>,
    connected_profiles: AddrMap<ProfileSet>,
    devices: AddrMap<DeviceLifecycle>,
    remote_devices: AddrMap<RemoteDevice>,
    absolute_volume: bool,
    enabled_profiles: ProfileSet,
    delay_enable_profiles: ProfileSet,
    telephony: Telephony,
    next_token: u64,
    effects: Vec<MediaEffect>,
}

impl View for BluetoothMedia {
    type V = MediaModel;

    closed spec fn view(&self) -> MediaModel {
        MediaModel {
            initialized: self.initialized,
            avrcp_direction: self.avrcp_direction,
            a2dp_states: self.a2dp_states@,
            a2dp_audio_state: self.a2dp_audio_state@,
            a2dp_caps: self.a2dp_caps@.map_values(|v: Vec<A2dpCodecConfig>| v@),
            hfp_states: self.hfp_states@,
            hfp_audio_state: self.hfp_audio_state@,
            hfp_cap: self.hfp_cap@,
            connected_profiles: self.connected_profiles@,
            devices: self.devices@,
            remote_names: self.remote_devices@.map_values(|d: RemoteDevice| d.name@),
            remote_profiles: self.remote_devices@.map_values(|d: RemoteDevice| d.profiles),
            absolute_volume: self.absolute_volume,
            enabled_profiles: self.enabled_profiles,
            delay_enable_profiles: self.delay_enable_profiles,
            telephony: self.telephony,
            next_token: self.next_token,
            effects: effects_view(self.effects@),
        }
    }
}

/// The state invariant, over the model.
pub open spec fn model_wf(m: MediaModel) -> bool {
    &&& m.telephony.wf()
    &&& forall|a: RawAddress| #[trigger] m.devices.contains_key(a) ==> m.devices[a].inv()
}

pub open spec fn opt_device(m: MediaModel, addr: RawAddress) -> Option<DeviceLifecycle> {
    if m.devices.contains_key(addr) {
        Some(m.devices[addr])
    } else {
        None
    }
}

pub open spec fn profiles_of(m: MediaModel, addr: RawAddress) -> ProfileSet {
    if m.connected_profiles.contains_key(addr) {
        m.connected_profiles[addr]
    } else {
        ProfileSet::spec_empty()
    }
}

/// The audio profiles that the adapter reports for a device.
pub open spec fn available_profiles(m: MediaModel, addr: RawAddress) -> ProfileSet {
    if m.remote_profiles.contains_key(addr) {
        m.remote_profiles[addr].spec_media_only()
    } else {
        ProfileSet::spec_empty()
    }
}

/// The name that the adapter reports for a device, or else its address.
pub open spec fn remote_name(m: MediaModel, addr: RawAddress) -> Seq<char> {
    if m.remote_names.contains_key(addr) && m.remote_names[addr].len() > 0 {
        m.remote_names[addr]
    } else {
        address_text(addr)
    }
}

/// The device as announced to the upper layer.
pub open spec fn announced_device(m: MediaModel, addr: RawAddress) -> AudioDeviceView {
    AudioDeviceView {
        address: address_text(addr),
        name: remote_name(m, addr),
        a2dp_caps: if m.a2dp_caps.contains_key(addr) {
            m.a2dp_caps[addr]
        } else {
            Seq::empty()
        },
        hfp_cap: if m.hfp_cap.contains_key(addr) {
            m.hfp_cap[addr]
        } else {
            HfpCodecCapability { bits: 0 }
        },
        absolute_volume: m.absolute_volume,
    }
}

pub open spec fn token_after(t: u64) -> u64 {
    if t == u64::MAX {
        0
    } else {
        (t + 1) as u64
    }
}

pub open spec fn cancel_effects(addr: RawAddress, cancel: Option<u64>) -> Seq<EffectView> {
    match cancel {
        Some(t) => seq![EffectView::CancelFallback { addr, token: t }],
        None => Seq::empty(),
    }
}

pub open spec fn step_effects(m: MediaModel, addr: RawAddress, step: LifecycleStep) -> Seq<
    EffectView,
> {
    cancel_effects(addr, step.cancel) + match step.action {
        LifecycleAction::Nothing => Seq::empty(),
        LifecycleAction::Arm { token, retry_at, give_up_at } => seq![
            EffectView::ArmFallback { addr, token, retry_at, give_up_at },
        ],
        LifecycleAction::Announce => seq![EffectView::DeviceAdded(announced_device(m, addr))],
    }
}

/// The lifecycle record and step of `addr` after its connected profiles
/// changed.
pub open spec fn lifecycle_step(m: MediaModel, addr: RawAddress, now: u64) -> (
    Option<DeviceLifecycle>,
    LifecycleStep,
) {
    profile_change_spec(
        opt_device(m, addr),
        profiles_of(m, addr).spec_is_empty(),
        available_profiles(m, addr).spec_difference(profiles_of(m, addr)),
        now,
        m.next_token,
    )
}

/// The model with the new lifecycle record of `addr`, and without its
/// profile set once none is left.
pub open spec fn lifecycle_applied(m: MediaModel, addr: RawAddress, now: u64) -> MediaModel {
    MediaModel {
        devices: match lifecycle_step(m, addr, now).0 {
            Some(l) => m.devices.insert(addr, l),
            None => m.devices.remove(addr),
        },
        connected_profiles: if profiles_of(m, addr).spec_is_empty() {
            m.connected_profiles.remove(addr)
        } else {
            m.connected_profiles
        },
        ..m
    }
}

/// The model after the connected profiles of `addr` changed.
pub open spec fn capability_updated(m: MediaModel, addr: RawAddress, now: u64) -> MediaModel {
    let step = lifecycle_step(m, addr, now).1;
    let a = lifecycle_applied(m, addr, now);
    MediaModel {
        next_token: if step.action is Arm {
            token_after(m.next_token)
        } else {
            m.next_token
        },
        effects: m.effects + step_effects(a, addr, step),
        ..a
    }
}

/// The model after `addr` lost a profile that it cannot be used without.
pub open spec fn critical_lost(m: MediaModel, addr: RawAddress) -> MediaModel {
    let (next, step) = critical_loss_spec(opt_device(m, addr));
    MediaModel {
        devices: match next {
            Some(l) => m.devices.insert(addr, l),
            None => m.devices,
        },
        effects: m.effects + cancel_effects(addr, step.cancel) + if step.notify_removed {
            seq![EffectView::DeviceRemoved(addr)]
        } else {
            Seq::empty()
        },
        ..m
    }
}

/// The model after profile `p` of `addr` connected.
pub open spec fn profile_added(m: MediaModel, addr: RawAddress, p: Profile, now: u64) -> MediaModel {
    if profiles_of(m, addr).has(p) {
        m
    } else {
        capability_updated(
            MediaModel {
                connected_profiles: m.connected_profiles.insert(
                    addr,
                    profiles_of(m, addr).spec_with(p, true),
                ),
                ..m
            },
            addr,
            now,
        )
    }
}

/// The model after profile `p` of `addr` disconnected.
pub open spec fn profile_removed(
    m: MediaModel,
    addr: RawAddress,
    p: Profile,
    critical: bool,
    now: u64,
) -> MediaModel {
    if !profiles_of(m, addr).has(p) {
        m
    } else {
        let m1 = MediaModel {
            connected_profiles: m.connected_profiles.insert(
                addr,
                profiles_of(m, addr).spec_with(p, false),
            ),
            ..m
        };
        let m2 = if critical {
            critical_lost(m1, addr)
        } else {
            m1
        };
        capability_updated(m2, addr, now)
    }
}

/// What the fallback timer of `addr` with `token` does at `stage`.
pub open spec fn fallback_fired(
    m: MediaModel,
    addr: RawAddress,
    token: u64,
    stage: FallbackStage,
) -> MediaModel {
    let (next, _) = fallback_spec(opt_device(m, addr), token, stage);
    MediaModel {
        devices: match next {
            Some(l) => m.devices.insert(addr, l),
            None => m.devices,
        },
        ..m
    }
}

/// A text is empty exactly when its UTF-8 encoding is.
pub proof fn lemma_text_empty(s: Seq<char>)
    ensures
        encode_utf8(s).len() == 0 <==> s.len() == 0,
{
    if s.len() > 0 {
        assert(encode_utf8(s) == encode_scalar(s[0] as u32) + encode_utf8(s.drop_first()));
    }
}

fn text_is_empty(s: &String) -> (r: bool)
    ensures
        r == (s@.len() == 0),
{
    let b = s.as_str().as_bytes();
    proof {
        lemma_text_empty(s@);
    }
    b.len() == 0
}

fn copy_codec_configs(v: &Vec<A2dpCodecConfig>) -> (r: Vec<A2dpCodecConfig>)
    ensures
        r@ == v@,
{
    let mut out: Vec<A2dpCodecConfig> = Vec::new();
    let mut i: usize = 0;
    while i < v.len()
        invariant
            i <= v@.len(),
            out@ == v@.take(i as int),
        decreases v@.len() - i,
    {
        out.push(v[i]);
        assert(out@ =~= v@.take(i + 1));
        i = i + 1;
    }
    assert(v@.take(v@.len() as int) =~= v@);
    out
}

impl BluetoothMedia {
    pub closed spec fn wf(&self) -> bool {
        &&& self.a2dp_states.wf()
        &&& self.a2dp_audio_state.wf()
        &&& self.a2dp_caps.wf()
        &&& self.hfp_states.wf()
        &&& self.hfp_audio_state.wf()
        &&& self.hfp_cap.wf()
        &&& self.connected_profiles.wf()
        &&& self.devices.wf()
        &&& self.remote_devices.wf()
        &&& model_wf(self@)
    }

    /// The HFP connection states in the order in which broadcasts to
    /// headsets walk them.
    pub closed spec fn hfp_walk(&self) -> Seq<(RawAddress, BthfConnectionState)> {
        self.hfp_states.pairs()
    }

    #[verifier::spinoff_prover]
    pub fn new() -> (r: BluetoothMedia)
        ensures
            r.wf(),
            !r@.initialized,
            r@.avrcp_direction == BtConnectionDirection::Unknown,
            r@.a2dp_states.is_empty(),
            r@.hfp_states.is_empty(),
            r@.connected_profiles.is_empty(),
            r@.devices.is_empty(),
            r@.remote_profiles.is_empty(),
            !r@.absolute_volume,
            r@.telephony.phone_state == (PhoneState {
                num_active: 0,
                num_held: 0,
                state: CallState::Idle,
            }),
            r@.telephony.calls().len() == 0,
            !r@.telephony.phone_ops_enabled,
            r@.effects.len() == 0,
            r@.a2dp_audio_state == Map::<RawAddress, BtavAudioState>::empty(),
            r@.a2dp_caps == Map::<RawAddress, Seq<A2dpCodecConfig>>::empty(),
            r@.hfp_audio_state == Map::<RawAddress, BthfAudioState>::empty(),
            r@.hfp_cap == Map::<RawAddress, HfpCodecCapability>::empty(),
            r@.remote_names == Map::<RawAddress, Seq<char>>::empty(),
            r@.telephony.telephony_device_status == (TelephonyDeviceStatus {
                network_available: true,
                roaming: false,
                signal_strength: 5,
                battery_level: 5,
            }),
            r@.telephony.memory_dialing_number is None,
            r@.telephony.last_dialing_number is None,
            r@.enabled_profiles == ProfileSet::spec_empty(),
            r@.delay_enable_profiles == ProfileSet::spec_empty(),
    {
        let r = BluetoothMedia {
            initialized: false,
            avrcp_direction: BtConnectionDirection::Unknown,
            a2dp_states: AddrMap::new(),
            a2dp_audio_state: AddrMap::new(),
            a2dp_caps: AddrMap::new(),
            hfp_states: AddrMap::new(),
            hfp_audio_state: AddrMap::new(),
            hfp_cap: AddrMap::new(),
            connected_profiles: AddrMap::new(),
            devices: AddrMap::new(),
            remote_devices: AddrMap::new(),
            absolute_volume: false,
            enabled_profiles: ProfileSet::empty(),
            delay_enable_profiles: ProfileSet::empty(),
            telephony: Telephony::new(),
            next_token: 0,
            effects: Vec::new(),
        };
        assert(r@.effects =~= Seq::<EffectView>::empty());
        assert(r@.a2dp_caps =~= Map::<RawAddress, Seq<A2dpCodecConfig>>::empty());
        assert(r@.remote_names =~= Map::<RawAddress, Seq<char>>::empty());
        assert(r@.remote_profiles =~= Map::<RawAddress, ProfileSet>::empty());
        r
    }

    /// The coordinator's telephony state keeps its invariant: distinct
    /// positive call indices, counts that match the call list, at most one
    /// ringing call.
    pub proof fn lemma_telephony_wf(&self)
        requires
            self.wf(),
        ensures
            self@.telephony.wf(),
    {
    }

    /// The walk of the broadcasts to headsets lists each address of
    /// `hfp_states` exactly once, with its state.
    pub proof fn lemma_hfp_walk(&self)
        requires
            self.wf(),
        ensures
            forall|i: int|
                0 <= i < self.hfp_walk().len() ==> self@.hfp_states.contains_key(
                    (#[trigger] self.hfp_walk()[i]).0,
                ) && self@.hfp_states[self.hfp_walk()[i].0] == self.hfp_walk()[i].1,
            forall|i: int, j: int|
                0 <= i < self.hfp_walk().len() && 0 <= j < self.hfp_walk().len() && i != j ==> (
                #[trigger] self.hfp_walk()[i]).0 != (#[trigger] self.hfp_walk()[j]).0,
            forall|a: RawAddress| #[trigger]
                self@.hfp_states.contains_key(a) ==> exists|i: int|
                    0 <= i < self.hfp_walk().len() && self.hfp_walk()[i].0 == a,
    {
        let w = self.hfp_walk();
        assert forall|i: int| 0 <= i < w.len() implies self@.hfp_states.contains_key(
            (#[trigger] w[i]).0,
        ) && self@.hfp_states[w[i].0] == w[i].1 by {
            self.hfp_states.lemma_pair(i);
        }
        assert forall|i: int, j: int|
            0 <= i < w.len() && 0 <= j < w.len() && i != j implies (#[trigger] w[i]).0 != (
            #[trigger] w[j]).0 by {
            self.hfp_states.lemma_pair(i);
            self.hfp_states.lemma_pair(j);
        }
        assert forall|a: RawAddress| #[trigger]
            self@.hfp_states.contains_key(a) implies exists|i: int|
                0 <= i < w.len() && w[i].0 == a by {
            self.hfp_states.lemma_key(a);
            let i = self.hfp_states.index_of(a);
            assert(w[i].0 == a);
        }
    }

    /// A backend refused a connection or disconnection request for
    /// `profile`. A refused AVRCP request leaves no direction behind.
    pub fn profile_request_failed(&mut self, profile: Profile)
        requires
            old(self).wf(),
        ensures
            final(self).wf(),
            profile is AvrcpController ==> final(self)@ == (MediaModel {
                avrcp_direction: BtConnectionDirection::Unknown,
                ..old(self)@
            }),
            !(profile is AvrcpController) ==> final(self)@ == old(self)@,
    {
        if profile == Profile::AvrcpController {
            self.avrcp_direction = BtConnectionDirection::Unknown;
        }
    }

    /// Hands out the effects produced so far, oldest first.
    #[verifier::spinoff_prover]
    pub fn take_effects(&mut self) -> (r: Vec<MediaEffect>)
        requires
            old(self).wf(),
        ensures
            final(self).wf(),
            effects_view(r@) == old(self)@.effects,
            final(self)@ == (MediaModel { effects: Seq::empty(), ..old(self)@ }),
    {
        let r = self.effects.split_off(0);
        assert(self@.effects =~= Seq::<EffectView>::empty());
        assert(self@ =~= (MediaModel { effects: Seq::empty(), ..old(self)@ }));
        r
    }

    #[verifier::spinoff_prover]
    fn emit(&mut self, e: MediaEffect)
        requires
            old(self).wf(),
        ensures
            final(self).wf(),
            final(self)@ == (MediaModel { effects: old(self)@.effects.push(e@), ..old(self)@ }),
            final(self).hfp_walk() == old(self).hfp_walk(),
    {
        let ghost before = self@;
        self.effects.push(e);
        assert(self@.effects =~= before.effects.push(e@));
        assert(self@ =~= (MediaModel { effects: before.effects.push(e@), ..before }));
    }

    /// Records what the adapter knows of a remote device: its name and the
    /// profiles that it advertises.
    #[verifier::spinoff_prover]
    pub fn set_remote_device(&mut self, addr: RawAddress, name: String, profiles: ProfileSet)
        requires
            old(self).wf(),
        ensures
            final(self).wf(),
            final(self)@ == (MediaModel {
                remote_names: old(self)@.remote_names.insert(addr, name@),
                remote_profiles: old(self)@.remote_profiles.insert(addr, profiles),
                ..old(self)@
            }),
    {
        let ghost before = self@;
        let ghost old_map = self.remote_devices@;
        self.remote_devices.insert(addr, RemoteDevice { name, profiles });
        assert(self@.remote_names =~= before.remote_names.insert(addr, name@));
        assert(self@.remote_profiles =~= before.remote_profiles.insert(addr, profiles));
        assert(self@ =~= (MediaModel {
            remote_names: before.remote_names.insert(addr, name@),
            remote_profiles: before.remote_profiles.insert(addr, profiles),
            ..before
        }));
    }

    /// The name that the adapter reports for a device, or its address.
    #[verifier::spinoff_prover]
    fn adapter_get_remote_name(&self, addr: RawAddress) -> (r: String)
        requires
            self.wf(),
        ensures
            r@ == remote_name(self@, addr),
    {
        proof {
            assert(self@.remote_names.dom() =~= self.remote_devices@.dom());
        }
        match self.remote_devices.get(&addr) {
            Some(d) => {
                assert(self@.remote_names.contains_key(addr));
                assert(self@.remote_names[addr] == d.name@);
                if text_is_empty(&d.name) {
                    addr.to_string()
                } else {
                    d.name.clone()
                }
            },
            None => addr.to_string(),
        }
    }

    /// The media audio profiles that the adapter reports for a device.
    #[verifier::spinoff_prover]
    fn adapter_get_audio_profiles(&self, addr: RawAddress) -> (r: ProfileSet)
        requires
            self.wf(),
        ensures
            r == available_profiles(self@, addr),
    {
        match self.remote_devices.get(&addr) {
            Some(d) => d.profiles.media_only(),
            None => ProfileSet::empty(),
        }
    }

    #[verifier::spinoff_prover]
    fn announced_device(&self, addr: RawAddress) -> (r: BluetoothAudioDevice)
        requires
            self.wf(),
        ensures
            r@ == announced_device(self@, addr),
    {
        let caps = match self.a2dp_caps.get(&addr) {
            Some(v) => copy_codec_configs(v),
            None => Vec::new(),
        };
        let cap = match self.hfp_cap.get(&addr) {
            Some(c) => *c,
            None => HfpCodecCapability::unsupported(),
        };
        let r = BluetoothAudioDevice::new(
            addr.to_string(),
            self.adapter_get_remote_name(addr),
            caps,
            cap,
            self.absolute_volume,
        );
        assert(r@.a2dp_caps =~= announced_device(self@, addr).a2dp_caps);
        r
    }

    /// Re-decides the lifecycle of `addr` after its connected profiles
    /// changed: arms or re-arms its fallback timer, announces it, or forgets
    /// it once no profile is left.
    #[verifier::spinoff_prover]
    fn notify_media_capability_updated(&mut self, addr: RawAddress, now: u64)
        requires
            old(self).wf(),
        ensures
            final(self).wf(),
            final(self)@ == capability_updated(old(self)@, addr, now),
    {
        let ghost m = self@;
        let step = self.apply_lifecycle(addr, now);
        self.emit_step(addr, step);
        assert(self@.effects =~= capability_updated(m, addr, now).effects);
        assert(self@ =~= capability_updated(m, addr, now));
    }

    #[verifier::rlimit(100)]
    #[verifier::spinoff_prover]
    fn apply_lifecycle(&mut self, addr: RawAddress, now: u64) -> (r: LifecycleStep)
        requires
            old(self).wf(),
        ensures
            final(self).wf(),
            final(self)@ == lifecycle_applied(old(self)@, addr, now),
            r == lifecycle_step(old(self)@, addr, now).1,
    {
        let ghost m = self@;
        let profiles = match self.connected_profiles.get(&addr) {
            Some(p) => *p,
            None => ProfileSet::empty(),
        };
        let cleared = profiles.is_empty();
        let available = self.adapter_get_audio_profiles(addr);
        let missing = available.difference(&profiles);
        let token = self.next_token;
        let rec = self.devices.remove(&addr);
        let (next, step) = profile_change(rec, cleared, missing, now, token);
        match next {
            Some(l) => {
                self.devices.insert(addr, l);
            },
            None => {},
        }
        if cleared {
            self.connected_profiles.remove(&addr);
        }
        proof {
            let target = lifecycle_applied(m, addr, now);
            assert(self@.devices =~= target.devices);
            assert(self@.connected_profiles =~= target.connected_profiles);
            assert(self@ == target);
        }
        step
    }

    /// Hands out what a lifecycle step asks for.
    #[verifier::spinoff_prover]
    fn emit_step(&mut self, addr: RawAddress, step: LifecycleStep)
        requires
            old(self).wf(),
        ensures
            final(self).wf(),
            final(self)@ == (MediaModel {
                next_token: if step.action is Arm {
                    token_after(old(self)@.next_token)
                } else {
                    old(self)@.next_token
                },
                effects: old(self)@.effects + step_effects(old(self)@, addr, step),
                ..old(self)@
            }),
    {
        let ghost m = self@;
        match step.cancel {
            Some(t) => {
                self.emit(MediaEffect::CancelFallback { addr, token: t });
            },
            None => {},
        }
        match step.action {
            LifecycleAction::Nothing => {},
            LifecycleAction::Arm { token, retry_at, give_up_at } => {
                self.emit(MediaEffect::ArmFallback { addr, token, retry_at, give_up_at });
                self.next_token = if self.next_token == u64::MAX {
                    0
                } else {
                    self.next_token + 1
                };
            },
            LifecycleAction::Announce => {
                let d = self.announced_device(addr);
                self.emit(MediaEffect::DeviceAdded(d));
            },
        }
        assert(self@.effects =~= m.effects + step_effects(m, addr, step));
    }

    /// A device lost a profile that it cannot be used without: it is
    /// disconnecting, its pending timer is cancelled, or, once announced, the
    /// upper layer is told it is gone.
    #[verifier::rlimit(100)]
    #[verifier::spinoff_prover]
    fn notify_critical_profile_disconnected(&mut self, addr: RawAddress)
        requires
            old(self).wf(),
        ensures
            final(self).wf(),
            final(self)@ == critical_lost(old(self)@, addr),
    {
        let ghost m = self@;
        let rec = self.devices.remove(&addr);
        let (next, step) = critical_loss(rec);
        match next {
            Some(l) => {
                self.devices.insert(addr, l);
            },
            None => {},
        }
        assert(self@.devices =~= critical_lost(m, addr).devices);
        match step.cancel {
            Some(t) => {
                self.emit(MediaEffect::CancelFallback { addr, token: t });
            },
            None => {},
        }
        if step.notify_removed {
            self.emit(MediaEffect::DeviceRemoved(addr));
        }
        assert(self@.effects =~= critical_lost(m, addr).effects);
        assert(self@ == critical_lost(m, addr));
    }

    #[verifier::spinoff_prover]
    fn is_profile_connected(&self, addr: &RawAddress, profile: Profile) -> (r: bool)
        requires
            self.wf(),
        ensures
            r == profiles_of(self@, *addr).has(profile),
    {
        match self.connected_profiles.get(addr) {
            Some(p) => p.contains(profile),
            None => false,
        }
    }

    /// Some media audio profile of `addr` is connected.
    #[verifier::spinoff_prover]
    fn is_any_media_profile_connected(&self, addr: &RawAddress) -> (r: bool)
        requires
            self.wf(),
        ensures
            r == (profiles_of(self@, *addr).has(Profile::A2dpSink) || profiles_of(
                self@,
                *addr,
            ).has(Profile::Hfp) || profiles_of(self@, *addr).has(Profile::AvrcpController)),
    {
        match self.connected_profiles.get(addr) {
            Some(p) => p.contains(Profile::A2dpSink) || p.contains(Profile::Hfp) || p.contains(
                Profile::AvrcpController,
            ),
            None => false,
        }
    }

    #[verifier::spinoff_prover]
    fn add_connected_profile(&mut self, addr: RawAddress, profile: Profile, now: u64)
        requires
            old(self).wf(),
        ensures
            final(self).wf(),
            final(self)@ == profile_added(old(self)@, addr, profile, now),
    {
        if self.is_profile_connected(&addr, profile) {
            return;
        }
        let ghost m = self@;
        let mut set = match self.connected_profiles.get(&addr) {
            Some(p) => *p,
            None => ProfileSet::empty(),
        };
        set.set(profile, true);
        self.connected_profiles.insert(addr, set);
        assert(self@ =~= (MediaModel {
            connected_profiles: m.connected_profiles.insert(
                addr,
                profiles_of(m, addr).spec_with(profile, true),
            ),
            ..m
        }));
        self.notify_media_capability_updated(addr, now);
    }

    #[verifier::spinoff_prover]
    fn rm_connected_profile(
        &mut self,
        addr: RawAddress,
        profile: Profile,
        is_profile_critical: bool,
        now: u64,
    )
        requires
            old(self).wf(),
        ensures
            final(self).wf(),
            final(self)@ == profile_removed(old(self)@, addr, profile, is_profile_critical, now),
    {
        if !self.is_profile_connected(&addr, profile) {
            return;
        }
        let ghost m = self@;
        let mut set = match self.connected_profiles.get(&addr) {
            Some(p) => *p,
            None => ProfileSet::empty(),
        };
        set.set(profile, false);
        self.connected_profiles.insert(addr, set);
        let ghost m1 = MediaModel {
            connected_profiles: m.connected_profiles.insert(
                addr,
                profiles_of(m, addr).spec_with(profile, false),
            ),
            ..m
        };
        assert(self@ =~= m1);
        if is_profile_critical {
            self.notify_critical_profile_disconnected(addr);
        }
        self.notify_media_capability_updated(addr, now);
    }

    /// A fallback timer fired. Only the timer that is armed for the device
    /// acts: at `Retry` the device moves on to asking for its missing
    /// profiles, at `GiveUp` it is disconnected. Returns the action to post.
    #[verifier::rlimit(100)]
    #[verifier::spinoff_prover]
    pub fn dispatch_fallback_timer(&mut self, addr: RawAddress, token: u64, stage: FallbackStage) -> (r:
        Option<MediaActions>)
        requires
            old(self).wf(),
        ensures
            final(self).wf(),
            final(self)@ == fallback_fired(old(self)@, addr, token, stage),
            ({
                let act = fallback_spec(opt_device(old(self)@, addr), token, stage).1;
                &&& act is Nothing <==> r is None
                &&& act is Connect ==> (r matches Some(MediaActions::Connect(s)) && s@
                    == address_text(addr))
                &&& act is Disconnect ==> (r matches Some(MediaActions::Disconnect(s)) && s@
                    == address_text(addr))
            }),
    {
        let ghost m = self@;
        let rec = self.devices.remove(&addr);
        let (next, act) = fallback(rec, token, stage);
        match next {
            Some(l) => {
                self.devices.insert(addr, l);
            },
            None => {},
        }
        assert(self@.devices =~= fallback_fired(m, addr, token, stage).devices);
        assert(self@ =~= fallback_fired(m, addr, token, stage));
        match act {
            FallbackAction::Nothing => None,
            FallbackAction::Connect => Some(MediaActions::Connect(addr.to_string())),
            FallbackAction::Disconnect => Some(MediaActions::Disconnect(addr.to_string())),
        }
    }
}


/// Phone state changes for every headset whose service level connection is
/// up, in walk order.
pub open spec fn phone_state_effects(
    w: Seq<(RawAddress, BthfConnectionState)>,
    ps: PhoneState,
    number: Seq<char>,
) -> Seq<EffectView>
    decreases w.len(),
{
    if w.len() == 0 {
        Seq::empty()
    } else {
        let r = phone_state_effects(w.drop_last(), ps, number);
        if w.last().1 == BthfConnectionState::SlcConnected {
            r.push(EffectView::PhoneStateChange(ps, number, w.last().0))
        } else {
            r
        }
    }
}

/// Device status notifications for every headset whose service level
/// connection is up, in walk order.
pub open spec fn device_status_effects(
    w: Seq<(RawAddress, BthfConnectionState)>,
    st: TelephonyDeviceStatus,
) -> Seq<EffectView>
    decreases w.len(),
{
    if w.len() == 0 {
        Seq::empty()
    } else {
        let r = device_status_effects(w.drop_last(), st);
        if w.last().1 == BthfConnectionState::SlcConnected {
            r.push(EffectView::DeviceStatusNotification(st, w.last().0))
        } else {
            r
        }
    }
}

/// Only the telephony state and the effects differ: when `changed`, every
/// headset hears of the new phone state, with `number`.
pub open spec fn broadcast_after(
    m0: MediaModel,
    m1: MediaModel,
    w: Seq<(RawAddress, BthfConnectionState)>,
    pre: Seq<EffectView>,
    changed: bool,
    number: Seq<char>,
) -> bool {
    m1 == MediaModel {
        telephony: m1.telephony,
        effects: m0.effects + pre + if changed && m0.initialized {
            phone_state_effects(w, m1.telephony.phone_state, number)
        } else {
            Seq::empty()
        },
        ..m0
    }
}

/// An OK or ERROR answer to the headset's command, when HFP is up.
pub open spec fn at_response(m: MediaModel, ok: bool, addr: RawAddress) -> Seq<EffectView> {
    if m.initialized {
        seq![EffectView::SimpleAtResponse(ok, addr)]
    } else {
        Seq::empty()
    }
}

/// Disconnection requests for the connected profiles of `addr`. A2DP is
/// left alone while HFP is up, as some headsets reconnect A2DP when it is
/// dropped under a running HFP; AVRCP is left alone while A2DP is up, as it
/// goes with A2DP.
pub open spec fn disconnect_model(m: MediaModel, addr: RawAddress) -> MediaModel {
    if !m.connected_profiles.contains_key(addr) || !m.initialized {
        m
    } else {
        let p = m.connected_profiles[addr];
        let e1 = if p.a2dp_sink && !p.hfp {
            seq![EffectView::DisconnectProfile(Profile::A2dpSink, addr)]
        } else {
            Seq::empty()
        };
        let e2 = if p.hfp {
            seq![EffectView::DisconnectProfile(Profile::Hfp, addr)]
        } else {
            Seq::empty()
        };
        let avrcp = p.avrcp_controller && !p.a2dp_sink;
        let e3 = if avrcp {
            seq![EffectView::DisconnectProfile(Profile::AvrcpController, addr)]
        } else {
            Seq::empty()
        };
        MediaModel {
            effects: m.effects + e1 + e2 + e3,
            avrcp_direction: if avrcp {
                BtConnectionDirection::Outgoing
            } else {
                m.avrcp_direction
            },
            ..m
        }
    }
}

/// Connection requests for the profiles that `addr` offers and has not
/// connected. AVRCP is not asked for while A2DP is missing, as the A2DP
/// connection brings AVRCP along.
pub open spec fn connect_model(m: MediaModel, addr: RawAddress) -> MediaModel {
    let miss = available_profiles(m, addr).spec_difference(profiles_of(m, addr));
    let m0 = MediaModel {
        connected_profiles: if m.connected_profiles.contains_key(addr) {
            m.connected_profiles
        } else {
            m.connected_profiles.insert(addr, ProfileSet::spec_empty())
        },
        ..m
    };
    if !m.initialized {
        m0
    } else {
        let e1 = if miss.a2dp_sink {
            seq![EffectView::ConnectProfile(Profile::A2dpSink, addr)]
        } else {
            Seq::empty()
        };
        let e2 = if miss.hfp {
            seq![EffectView::ConnectProfile(Profile::Hfp, addr)]
        } else {
            Seq::empty()
        };
        let avrcp = miss.avrcp_controller && !miss.a2dp_sink;
        let e3 = if avrcp {
            seq![EffectView::ConnectProfile(Profile::AvrcpController, addr)]
        } else {
            Seq::empty()
        };
        MediaModel {
            effects: m.effects + e1 + e2 + e3,
            avrcp_direction: if avrcp {
                BtConnectionDirection::Outgoing
            } else {
                m.avrcp_direction
            },
            ..m0
        }
    }
}

/// The model after A2DP reported `state` for `addr`.
pub open spec fn a2dp_state_changed(
    m: MediaModel,
    addr: RawAddress,
    state: BtavConnectionState,
    now: u64,
) -> MediaModel {
    if m.a2dp_states.contains_key(addr) && m.a2dp_states[addr] == state {
        m
    } else {
        match state {
            BtavConnectionState::Connected => profile_added(
                MediaModel { a2dp_states: m.a2dp_states.insert(addr, state), ..m },
                addr,
                Profile::A2dpSink,
                now,
            ),
            BtavConnectionState::Disconnected => disconnect_model(
                profile_removed(
                    MediaModel {
                        a2dp_states: m.a2dp_states.remove(addr),
                        a2dp_caps: m.a2dp_caps.remove(addr),
                        a2dp_audio_state: m.a2dp_audio_state.remove(addr),
                        ..m
                    },
                    addr,
                    Profile::A2dpSink,
                    true,
                    now,
                ),
                addr,
            ),
            _ => MediaModel { a2dp_states: m.a2dp_states.insert(addr, state), ..m },
        }
    }
}

/// The model after an A2DP event.
pub open spec fn a2dp_event(m: MediaModel, cb: A2dpCallbacks, now: u64) -> MediaModel {
    match cb {
        A2dpCallbacks::ConnectionState(addr, state, _) => a2dp_state_changed(m, addr, state, now),
        A2dpCallbacks::AudioState(addr, st) => MediaModel {
            a2dp_audio_state: m.a2dp_audio_state.insert(addr, st),
            ..m
        },
        A2dpCallbacks::AudioConfig(addr, _, _, caps) => MediaModel {
            a2dp_caps: m.a2dp_caps.insert(addr, caps@),
            ..m
        },
        A2dpCallbacks::MandatoryCodecPreferred(_) => m,
    }
}

/// The upper layer hears that absolute volume support changed only while the
/// device has a pending timer, that is, before it is announced.
pub open spec fn volume_support_notice(m: MediaModel, addr: RawAddress, supported: bool) -> bool {
    m.absolute_volume != supported && opt_device(m, addr) is Some && opt_device(
        m,
        addr,
    )->0.pending is Some
}

/// An AVRCP connection before its profile is added: the key injector gets a
/// keyboard for the device, and the absolute volume support is recorded.
pub open spec fn avrcp_connect_noted(m: MediaModel, addr: RawAddress, supported: bool) -> MediaModel {
    MediaModel {
        effects: m.effects + seq![EffectView::UinputCreate(remote_name(m, addr), addr)]
            + if volume_support_notice(m, addr, supported) {
            seq![EffectView::AbsoluteVolumeSupportedChanged(supported)]
        } else {
            Seq::empty()
        },
        absolute_volume: supported,
        avrcp_direction: BtConnectionDirection::Unknown,
        ..m
    }
}

/// An AVRCP disconnection before its profile is removed.
pub open spec fn avrcp_disconnect_noted(m: MediaModel, addr: RawAddress) -> MediaModel {
    MediaModel {
        effects: m.effects.push(EffectView::UinputClose(addr)),
        absolute_volume: false,
        avrcp_direction: BtConnectionDirection::Unknown,
        ..m
    }
}

/// The model after an AVRCP event.
pub open spec fn avrcp_event(m: MediaModel, cb: AvrcpCallbacks, now: u64) -> MediaModel {
    match cb {
        AvrcpCallbacks::AvrcpDeviceConnected(addr, supported) => profile_added(
            avrcp_connect_noted(m, addr, supported),
            addr,
            Profile::AvrcpController,
            now,
        ),
        AvrcpCallbacks::AvrcpDeviceDisconnected(addr) => profile_removed(
            avrcp_disconnect_noted(m, addr),
            addr,
            Profile::AvrcpController,
            profiles_of(m, addr).spec_is_avrcp_only(),
            now,
        ),
        AvrcpCallbacks::AvrcpAbsoluteVolumeUpdate(v) => MediaModel {
            effects: m.effects.push(EffectView::AbsoluteVolumeChanged(v)),
            ..m
        },
        AvrcpCallbacks::AvrcpSendKeyEvent(k, v) => MediaModel {
            effects: m.effects.push(EffectView::UinputSendKey(k, v)),
            ..m
        },
        AvrcpCallbacks::AvrcpSetActiveDevice(a) => MediaModel {
            effects: m.effects.push(EffectView::UinputSetActiveDevice(a)),
            ..m
        },
    }
}

/// What an HFP connection state does besides being recorded.
pub open spec fn hfp_state_step(
    m: MediaModel,
    addr: RawAddress,
    state: BthfConnectionState,
    now: u64,
) -> MediaModel {
    match state {
        BthfConnectionState::SlcConnected => profile_added(
            MediaModel {
                hfp_cap: if m.hfp_cap.contains_key(addr) {
                    m.hfp_cap
                } else {
                    m.hfp_cap.insert(addr, HfpCodecCapability { bits: 1 })
                },
                ..m
            },
            addr,
            Profile::Hfp,
            now,
        ),
        BthfConnectionState::Disconnected => disconnect_model(
            profile_removed(
                MediaModel {
                    hfp_states: m.hfp_states.remove(addr),
                    hfp_cap: m.hfp_cap.remove(addr),
                    hfp_audio_state: m.hfp_audio_state.remove(addr),
                    ..m
                },
                addr,
                Profile::Hfp,
                true,
                now,
            ),
            addr,
        ),
        _ => m,
    }
}

/// The model after HFP reported connection `state` for `addr`.
pub open spec fn hfp_state_changed(
    m: MediaModel,
    addr: RawAddress,
    state: BthfConnectionState,
    now: u64,
) -> MediaModel {
    if m.hfp_states.contains_key(addr) && m.hfp_states[addr] == state {
        m
    } else {
        let m1 = hfp_state_step(m, addr, state, now);
        if state is Disconnected {
            m1
        } else {
            MediaModel { hfp_states: m1.hfp_states.insert(addr, state), ..m1 }
        }
    }
}

pub open spec fn slc_connected(m: MediaModel, addr: RawAddress) -> bool {
    m.hfp_states.contains_key(addr) && m.hfp_states[addr] == BthfConnectionState::SlcConnected
}

pub open spec fn any_slc(m: MediaModel) -> bool {
    exists|a: RawAddress| #[trigger] slc_connected(m, a)
}

/// The summary of HFP over all devices.
pub open spec fn hfp_connection_state(m: MediaModel) -> ProfileConnectionState {
    if exists|a: RawAddress|
        #![trigger m.hfp_audio_state[a]]
        m.hfp_audio_state.contains_key(a) && m.hfp_audio_state[a] == BthfAudioState::Connected {
        ProfileConnectionState::Active
    } else if any_slc(m) {
        ProfileConnectionState::Connected
    } else if exists|a: RawAddress|
        #![trigger m.hfp_states[a]]
        m.hfp_states.contains_key(a) && (m.hfp_states[a] == BthfConnectionState::Connecting
            || m.hfp_states[a] == BthfConnectionState::Connected) {
        ProfileConnectionState::Connecting
    } else if exists|a: RawAddress|
        #![trigger m.hfp_states[a]]
        m.hfp_states.contains_key(a) && m.hfp_states[a] == BthfConnectionState::Disconnecting {
        ProfileConnectionState::Disconnecting
    } else {
        ProfileConnectionState::Disconnected
    }
}

/// The summary of A2DP over all devices.
pub open spec fn a2dp_connection_state(m: MediaModel) -> ProfileConnectionState {
    if exists|a: RawAddress|
        #![trigger m.a2dp_audio_state[a]]
        m.a2dp_audio_state.contains_key(a) && m.a2dp_audio_state[a] == BtavAudioState::Started {
        ProfileConnectionState::Active
    } else if exists|a: RawAddress|
        #![trigger m.a2dp_states[a]]
        m.a2dp_states.contains_key(a) && m.a2dp_states[a] == BtavConnectionState::Connected {
        ProfileConnectionState::Connected
    } else if exists|a: RawAddress|
        #![trigger m.a2dp_states[a]]
        m.a2dp_states.contains_key(a) && m.a2dp_states[a] == BtavConnectionState::Connecting {
        ProfileConnectionState::Connecting
    } else if exists|a: RawAddress|
        #![trigger m.a2dp_states[a]]
        m.a2dp_states.contains_key(a) && m.a2dp_states[a] == BtavConnectionState::Disconnecting {
        ProfileConnectionState::Disconnecting
    } else {
        ProfileConnectionState::Disconnected
    }
}

/// The telephony state after phone operations were turned on or off: the
/// calls and numbers start afresh, with a stand-in active call when they are
/// off while some headset's service level connection is up (`slc`).
pub open spec fn phone_ops_reset(t: Telephony, u: Telephony, enable: bool, slc: bool) -> bool {
    &&& u.phone_ops_enabled == enable
    &&& u.memory_dialing_number is None
    &&& u.last_dialing_number is None
    &&& u.telephony_device_status == t.telephony_device_status
    &&& if !enable && slc {
        u.calls() == seq![crate::telephony::synthetic_call()] && u.phone_state == (PhoneState {
            num_active: 1,
            num_held: 0,
            state: CallState::Idle,
        })
    } else {
        u.calls() == Seq::<CallView>::empty() && u.phone_state == (PhoneState {
            num_active: 0,
            num_held: 0,
            state: CallState::Idle,
        })
    }
}

/// The address that a caller's text names.
pub open spec fn address_of(s: Seq<char>) -> Option<RawAddress> {
    crate::address::parse_address(encode_utf8(s))
}

fn parse_address_text(address: &String) -> (r: Option<RawAddress>)
    ensures
        r == address_of(address@),
{
    RawAddress::from_string(address.as_str())
}

impl BluetoothMedia {
    #[verifier::spinoff_prover]
    fn phone_state_change(&mut self, number: String)
        requires
            old(self).wf(),
        ensures
            final(self).wf(),
            final(self).hfp_walk() == old(self).hfp_walk(),
            final(self)@ == (MediaModel {
                effects: old(self)@.effects + if old(self)@.initialized {
                    phone_state_effects(
                        old(self).hfp_walk(),
                        old(self)@.telephony.phone_state,
                        number@,
                    )
                } else {
                    Seq::empty()
                },
                ..old(self)@
            }),
    {
        let ghost m = self@;
        let ghost w = self.hfp_walk();
        if !self.initialized {
            assert(self@.effects =~= m.effects + Seq::<EffectView>::empty());
            return;
        }
        let ps = self.telephony.phone_state;
        let mut i: usize = 0;
        while i < self.hfp_states.len()
            invariant
                self.wf(),
                w == self.hfp_walk(),
                w == self.hfp_states.pairs(),
                i <= w.len(),
                ps == m.telephony.phone_state,
                m.initialized,
                self@ == (MediaModel {
                    effects: m.effects + phone_state_effects(w.take(i as int), ps, number@),
                    ..m
                }),
            decreases w.len() - i,
        {
            let a = self.hfp_states.key_at(i);
            let st = *self.hfp_states.value_at(i);
            let ghost before = self@;
            proof {
                assert(w.take(i + 1).drop_last() =~= w.take(i as int));
                assert(w.take(i + 1).last() == w[i as int]);
            }
            if st == BthfConnectionState::SlcConnected {
                self.emit(MediaEffect::PhoneStateChange(ps, number.clone(), a));
                assert(self@.effects =~= m.effects + phone_state_effects(
                    w.take(i + 1),
                    ps,
                    number@,
                ));
            } else {
                assert(self@.effects =~= m.effects + phone_state_effects(
                    w.take(i + 1),
                    ps,
                    number@,
                ));
            }
            i = i + 1;
        }
        assert(w.take(w.len() as int) =~= w);
    }

    #[verifier::spinoff_prover]
    fn device_status_notification(&mut self)
        requires
            old(self).wf(),
        ensures
            final(self).wf(),
            final(self).hfp_walk() == old(self).hfp_walk(),
            final(self)@ == (MediaModel {
                effects: old(self)@.effects + if old(self)@.initialized {
                    device_status_effects(
                        old(self).hfp_walk(),
                        old(self)@.telephony.telephony_device_status,
                    )
                } else {
                    Seq::empty()
                },
                ..old(self)@
            }),
    {
        let ghost m = self@;
        let ghost w = self.hfp_walk();
        if !self.initialized {
            assert(self@.effects =~= m.effects + Seq::<EffectView>::empty());
            return;
        }
        let st = self.telephony.telephony_device_status;
        let mut i: usize = 0;
        while i < self.hfp_states.len()
            invariant
                self.wf(),
                w == self.hfp_walk(),
                w == self.hfp_states.pairs(),
                i <= w.len(),
                st == m.telephony.telephony_device_status,
                m.initialized,
                self@ == (MediaModel {
                    effects: m.effects + device_status_effects(w.take(i as int), st),
                    ..m
                }),
            decreases w.len() - i,
        {
            let a = self.hfp_states.key_at(i);
            let cs = *self.hfp_states.value_at(i);
            proof {
                assert(w.take(i + 1).drop_last() =~= w.take(i as int));
                assert(w.take(i + 1).last() == w[i as int]);
            }
            if cs == BthfConnectionState::SlcConnected {
                self.emit(MediaEffect::DeviceStatusNotification(st, a));
            }
            assert(self@.effects =~= m.effects + device_status_effects(w.take(i + 1), st));
            i = i + 1;
        }
        assert(w.take(w.len() as int) =~= w);
    }

    #[verifier::spinoff_prover]
    fn simple_at_response(&mut self, ok: bool, addr: RawAddress)
        requires
            old(self).wf(),
        ensures
            final(self).wf(),
            final(self).hfp_walk() == old(self).hfp_walk(),
            final(self)@ == (MediaModel {
                effects: old(self)@.effects + at_response(old(self)@, ok, addr),
                ..old(self)@
            }),
    {
        let ghost m = self@;
        if self.initialized {
            self.emit(MediaEffect::SimpleAtResponse(ok, addr));
        }
        assert(self@.effects =~= m.effects + at_response(m, ok, addr));
    }

    /// Asks the backends to connect the profiles that `addr` offers and has
    /// not connected.
    #[verifier::rlimit(100)]
    #[verifier::spinoff_prover]
    fn connect_addr(&mut self, addr: RawAddress)
        requires
            old(self).wf(),
        ensures
            final(self).wf(),
            final(self)@ == connect_model(old(self)@, addr),
    {
        let ghost m = self@;
        let available = self.adapter_get_audio_profiles(addr);
        let connected = self.profile_entry(addr);
        let missing = available.difference(&connected);
        if !self.initialized {
            return;
        }
        let ghost m0 = self@;
        if missing.a2dp_sink {
            self.emit(MediaEffect::ConnectProfile(Profile::A2dpSink, addr));
        }
        if missing.hfp {
            self.emit(MediaEffect::ConnectProfile(Profile::Hfp, addr));
        }
        if missing.avrcp_controller && !missing.a2dp_sink {
            self.avrcp_direction = BtConnectionDirection::Outgoing;
            self.emit(MediaEffect::ConnectProfile(Profile::AvrcpController, addr));
        }
        assert(self@.effects =~= connect_model(m, addr).effects);
    }

    /// The connected profiles of `addr`, after giving it an empty set if it
    /// had none.
    #[verifier::spinoff_prover]
    fn profile_entry(&mut self, addr: RawAddress) -> (r: ProfileSet)
        requires
            old(self).wf(),
        ensures
            final(self).wf(),
            r == profiles_of(old(self)@, addr),
            final(self)@ == (MediaModel {
                connected_profiles: if old(self)@.connected_profiles.contains_key(addr) {
                    old(self)@.connected_profiles
                } else {
                    old(self)@.connected_profiles.insert(addr, ProfileSet::spec_empty())
                },
                ..old(self)@
            }),
    {
        match self.connected_profiles.get(&addr) {
            Some(p) => *p,
            None => {
                self.connected_profiles.insert(addr, ProfileSet::empty());
                ProfileSet::empty()
            },
        }
    }

    /// Asks the backends to disconnect the connected profiles of `addr`.
    #[verifier::rlimit(100)]
    #[verifier::spinoff_prover]
    fn disconnect_addr(&mut self, addr: RawAddress)
        requires
            old(self).wf(),
        ensures
            final(self).wf(),
            final(self)@ == disconnect_model(old(self)@, addr),
    {
        let ghost m = self@;
        let p = match self.connected_profiles.get(&addr) {
            Some(p) => *p,
            None => {
                return;
            },
        };
        if !self.initialized {
            return;
        }
        if p.a2dp_sink && !p.hfp {
            self.emit(MediaEffect::DisconnectProfile(Profile::A2dpSink, addr));
        }
        if p.hfp {
            self.emit(MediaEffect::DisconnectProfile(Profile::Hfp, addr));
        }
        if p.avrcp_controller && !p.a2dp_sink {
            self.avrcp_direction = BtConnectionDirection::Outgoing;
            self.emit(MediaEffect::DisconnectProfile(Profile::AvrcpController, addr));
        }
        assert(self@.effects =~= disconnect_model(m, addr).effects);
        assert(self@ == disconnect_model(m, addr));
    }

    /// Follows an A2DP event: records its states, and on a connection or a
    /// disconnection updates the device's profiles and lifecycle; a
    /// disconnection also takes the device's other profiles down.
    #[verifier::rlimit(100)]
    #[verifier::spinoff_prover]
    pub fn dispatch_a2dp_callbacks(&mut self, cb: A2dpCallbacks, now: u64)
        requires
            old(self).wf(),
        ensures
            final(self).wf(),
            final(self)@ == a2dp_event(old(self)@, cb, now),
    {
        let ghost m = self@;
        match cb {
            A2dpCallbacks::ConnectionState(addr, state, _) => {
                match self.a2dp_states.get(&addr) {
                    Some(s) => {
                        if *s == state {
                            return;
                        }
                    },
                    None => {},
                }
                match state {
                    BtavConnectionState::Connected => {
                        self.a2dp_states.insert(addr, state);
                        self.add_connected_profile(addr, Profile::A2dpSink, now);
                    },
                    BtavConnectionState::Disconnected => {
                        self.a2dp_states.remove(&addr);
                        self.a2dp_caps.remove(&addr);
                        self.a2dp_audio_state.remove(&addr);
                        assert(self@.a2dp_caps =~= m.a2dp_caps.remove(addr));
                        self.rm_connected_profile(addr, Profile::A2dpSink, true, now);
                        self.disconnect_addr(addr);
                    },
                    _ => {
                        self.a2dp_states.insert(addr, state);
                    },
                }
            },
            A2dpCallbacks::AudioState(addr, state) => {
                self.a2dp_audio_state.insert(addr, state);
            },
            A2dpCallbacks::AudioConfig(addr, _config, _local_caps, a2dp_caps) => {
                let ghost caps = a2dp_caps@;
                self.a2dp_caps.insert(addr, a2dp_caps);
                assert(self@.a2dp_caps =~= m.a2dp_caps.insert(addr, caps));
            },
            A2dpCallbacks::MandatoryCodecPreferred(_addr) => {},
        }
    }

    #[verifier::spinoff_prover]
    #[verifier::rlimit(100)]
    fn avrcp_note_connect(&mut self, addr: RawAddress, supported: bool)
        requires
            old(self).wf(),
        ensures
            final(self).wf(),
            final(self)@ == avrcp_connect_noted(old(self)@, addr, supported),
    {
        let ghost m = self@;
        let name = self.adapter_get_remote_name(addr);
        self.emit(MediaEffect::UinputCreate(name, addr));
        if self.absolute_volume != supported {
            // Only a device that is not announced yet hears of the change.
            let pending = match self.devices.get(&addr) {
                Some(l) => l.pending.is_some(),
                None => false,
            };
            if pending {
                self.emit(MediaEffect::AbsoluteVolumeSupportedChanged(supported));
            }
        }
        self.absolute_volume = supported;
        self.avrcp_direction = BtConnectionDirection::Unknown;
        assert(self@.effects =~= avrcp_connect_noted(m, addr, supported).effects);
    }

    #[verifier::spinoff_prover]
    fn avrcp_note_disconnect(&mut self, addr: RawAddress)
        requires
            old(self).wf(),
        ensures
            final(self).wf(),
            final(self)@ == avrcp_disconnect_noted(old(self)@, addr),
    {
        self.emit(MediaEffect::UinputClose(addr));
        self.absolute_volume = false;
        self.avrcp_direction = BtConnectionDirection::Unknown;
    }

    /// Follows an AVRCP event: the key injector follows the device, the
    /// absolute volume support is recorded, and the device's profiles and
    /// lifecycle are updated.
    #[verifier::rlimit(100)]
    #[verifier::spinoff_prover]
    pub fn dispatch_avrcp_callbacks(&mut self, cb: AvrcpCallbacks, now: u64)
        requires
            old(self).wf(),
        ensures
            final(self).wf(),
            final(self)@ == avrcp_event(old(self)@, cb, now),
    {
        match cb {
            AvrcpCallbacks::AvrcpDeviceConnected(addr, supported) => {
                self.avrcp_note_connect(addr, supported);
                self.add_connected_profile(addr, Profile::AvrcpController, now);
            },
            AvrcpCallbacks::AvrcpDeviceDisconnected(addr) => {
                // Losing AVRCP is critical only for a device that had nothing
                // else connected.
                let is_profile_critical = match self.connected_profiles.get(&addr) {
                    Some(profiles) => profiles.is_avrcp_only(),
                    None => false,
                };
                self.avrcp_note_disconnect(addr);
                self.rm_connected_profile(
                    addr,
                    Profile::AvrcpController,
                    is_profile_critical,
                    now,
                );
            },
            AvrcpCallbacks::AvrcpAbsoluteVolumeUpdate(volume) => {
                self.emit(MediaEffect::AbsoluteVolumeChanged(volume));
            },
            AvrcpCallbacks::AvrcpSendKeyEvent(key, value) => {
                self.emit(MediaEffect::UinputSendKey(key, value));
            },
            AvrcpCallbacks::AvrcpSetActiveDevice(addr) => {
                self.emit(MediaEffect::UinputSetActiveDevice(addr));
            },
        }
    }

    /// Follows a profile request from a fallback timer.
    #[verifier::spinoff_prover]
    pub fn dispatch_media_actions(&mut self, action: MediaActions)
        requires
            old(self).wf(),
        ensures
            final(self).wf(),
            action matches MediaActions::Connect(s) ==> (address_of(s@) matches Some(a)
                ==> final(self)@ == connect_model(old(self)@, a)) && (address_of(s@) is None
                ==> final(self)@ == old(self)@),
            action matches MediaActions::Disconnect(s) ==> (address_of(s@) matches Some(a)
                ==> final(self)@ == disconnect_model(old(self)@, a)) && (address_of(s@) is None
                ==> final(self)@ == old(self)@),
    {
        match action {
            MediaActions::Connect(address) => self.connect(address),
            MediaActions::Disconnect(address) => self.disconnect(address),
        }
    }

    #[verifier::spinoff_prover]
    #[verifier::rlimit(100)]
    fn hfp_slc_connected(&mut self, addr: RawAddress, now: u64)
        requires
            old(self).wf(),
        ensures
            final(self).wf(),
            final(self)@ == hfp_state_step(old(self)@, addr, BthfConnectionState::SlcConnected, now),
    {
        let ghost m = self@;
        // A device that does not negotiate codecs supports CVSD.
        if !self.hfp_cap.contains_key(&addr) {
            self.hfp_cap.insert(addr, HfpCodecCapability::cvsd());
        }
        assert(self@ == (MediaModel {
            hfp_cap: if m.hfp_cap.contains_key(addr) {
                m.hfp_cap
            } else {
                m.hfp_cap.insert(addr, HfpCodecCapability { bits: 1 })
            },
            ..m
        }));
        self.add_connected_profile(addr, Profile::Hfp, now);
    }

    #[verifier::spinoff_prover]
    #[verifier::rlimit(100)]
    fn hfp_disconnected(&mut self, addr: RawAddress, now: u64)
        requires
            old(self).wf(),
        ensures
            final(self).wf(),
            final(self)@ == hfp_state_step(old(self)@, addr, BthfConnectionState::Disconnected, now),
    {
        let ghost m = self@;
        self.hfp_states.remove(&addr);
        self.hfp_cap.remove(&addr);
        self.hfp_audio_state.remove(&addr);
        assert(self@ == (MediaModel {
            hfp_states: m.hfp_states.remove(addr),
            hfp_cap: m.hfp_cap.remove(addr),
            hfp_audio_state: m.hfp_audio_state.remove(addr),
            ..m
        }));
        self.rm_connected_profile(addr, Profile::Hfp, true, now);
        self.disconnect_addr(addr);
    }

    #[verifier::spinoff_prover]
    #[verifier::rlimit(100)]
    fn hfp_connection_state_changed(
        &mut self,
        state: BthfConnectionState,
        addr: RawAddress,
        now: u64,
    )
        requires
            old(self).wf(),
        ensures
            final(self).wf(),
            final(self)@ == hfp_state_changed(old(self)@, addr, state, now),
    {
        match self.hfp_states.get(&addr) {
            Some(s) => {
                if *s == state {
                    return;
                }
            },
            None => {},
        }
        match state {
            BthfConnectionState::SlcConnected => self.hfp_slc_connected(addr, now),
            BthfConnectionState::Disconnected => self.hfp_disconnected(addr, now),
            _ => {},
        }
        if state == BthfConnectionState::Disconnected {
            // A disconnected headset is forgotten, not recorded.
            return;
        }
        let ghost m1 = self@;
        self.hfp_states.insert(addr, state);
        assert(self@ == (MediaModel { hfp_states: m1.hfp_states.insert(addr, state), ..m1 }));
    }

    #[verifier::spinoff_prover]
    #[verifier::rlimit(100)]
    fn hfp_audio_up(&mut self, addr: RawAddress)
        requires
            old(self).wf(),
        ensures
            final(self).wf(),
            ({
                let m1 = MediaModel {
                    hfp_audio_state: old(self)@.hfp_audio_state.insert(addr, BthfAudioState::Connected),
                    ..old(self)@
                };
                let changed = !old(self)@.telephony.phone_ops_enabled
                    && old(self)@.telephony.phone_state.num_active != 1;
                &&& synthetic_rel(old(self)@.telephony, final(self)@.telephony, changed, true)
                &&& broadcast_after(
                    m1,
                    final(self)@,
                    old(self).hfp_walk(),
                    Seq::empty(),
                    changed,
                    Seq::empty(),
                )
            }),
    {
        let ghost m = self@;
        self.hfp_audio_state.insert(addr, BthfAudioState::Connected);
        let ghost m1 = self@;
        // Some headsets play sound only during a call: with phone
        // operations off, a stand-in active call is announced.
        let changed = self.tel_synthetic(true);
        assert(self@.effects =~= m1.effects + Seq::<EffectView>::empty());
        if changed {
            self.phone_state_change(String::new());
        }
        assert(self@.effects =~= m1.effects + Seq::<EffectView>::empty() + if changed
            && m1.initialized {
            phone_state_effects(old(self).hfp_walk(), self@.telephony.phone_state, Seq::empty())
        } else {
            Seq::empty()
        });
    }

    #[verifier::spinoff_prover]
    #[verifier::rlimit(100)]
    fn hfp_audio_down(&mut self, addr: RawAddress)
        requires
            old(self).wf(),
        ensures
            final(self).wf(),
            ({
                let m1 = MediaModel {
                    hfp_audio_state: old(self)@.hfp_audio_state.insert(addr, BthfAudioState::Disconnected),
                    ..old(self)@
                };
                let was_up = old(self)@.hfp_audio_state.contains_key(addr)
                    && old(self)@.hfp_audio_state[addr] == BthfAudioState::Connected;
                let changed = !old(self)@.telephony.phone_ops_enabled
                    && old(self)@.telephony.phone_state.num_active != 0;
                &&& synthetic_rel(old(self)@.telephony, final(self)@.telephony, changed, false)
                &&& broadcast_after(
                    m1,
                    final(self)@,
                    old(self).hfp_walk(),
                    if was_up {
                        seq![EffectView::HfpAudioDisconnected(addr)]
                    } else {
                        Seq::empty()
                    },
                    changed,
                    Seq::empty(),
                )
            }),
    {
        let ghost m = self@;
        let prev = self.hfp_audio_state.insert(addr, BthfAudioState::Disconnected);
        let ghost m1 = MediaModel { hfp_audio_state: m.hfp_audio_state.insert(addr, BthfAudioState::Disconnected), ..m };
        let was_up = match prev {
            Some(p) => p == BthfAudioState::Connected,
            None => false,
        };
        if was_up {
            self.emit(MediaEffect::HfpAudioDisconnected(addr));
        }
        let ghost pre = if was_up {
            seq![EffectView::HfpAudioDisconnected(addr)]
        } else {
            Seq::<EffectView>::empty()
        };
        assert(self@.effects =~= m1.effects + pre);
        let changed = self.tel_synthetic(false);
        if changed {
            self.phone_state_change(String::new());
        }
        assert(self@.effects =~= m1.effects + pre + if changed && m1.initialized {
            phone_state_effects(old(self).hfp_walk(), self@.telephony.phone_state, Seq::empty())
        } else {
            Seq::empty()
        });
    }

    #[verifier::spinoff_prover]
    #[verifier::rlimit(100)]
    fn hfp_audio_state_changed(&mut self, state: BthfAudioState, addr: RawAddress)
        requires
            old(self).wf(),
        ensures
            final(self).wf(),
            !slc_connected(old(self)@, addr) || state is Connecting || state is Disconnecting
                ==> final(self)@ == old(self)@,
            slc_connected(old(self)@, addr) && state is Connected ==> ({
                let m1 = MediaModel {
                    hfp_audio_state: old(self)@.hfp_audio_state.insert(addr, state),
                    ..old(self)@
                };
                let changed = !old(self)@.telephony.phone_ops_enabled
                    && old(self)@.telephony.phone_state.num_active != 1;
                &&& synthetic_rel(old(self)@.telephony, final(self)@.telephony, changed, true)
                &&& broadcast_after(
                    m1,
                    final(self)@,
                    old(self).hfp_walk(),
                    Seq::empty(),
                    changed,
                    Seq::empty(),
                )
            }),
            slc_connected(old(self)@, addr) && state is Disconnected ==> ({
                let m1 = MediaModel {
                    hfp_audio_state: old(self)@.hfp_audio_state.insert(addr, state),
                    ..old(self)@
                };
                let was_up = old(self)@.hfp_audio_state.contains_key(addr)
                    && old(self)@.hfp_audio_state[addr] == BthfAudioState::Connected;
                let changed = !old(self)@.telephony.phone_ops_enabled
                    && old(self)@.telephony.phone_state.num_active != 0;
                &&& synthetic_rel(old(self)@.telephony, final(self)@.telephony, changed, false)
                &&& broadcast_after(
                    m1,
                    final(self)@,
                    old(self).hfp_walk(),
                    if was_up {
                        seq![EffectView::HfpAudioDisconnected(addr)]
                    } else {
                        Seq::empty()
                    },
                    changed,
                    Seq::empty(),
                )
            }),
    {
        let slc = match self.hfp_states.get(&addr) {
            Some(s) => *s == BthfConnectionState::SlcConnected,
            None => false,
        };
        if !slc {
            return;
        }
        match state {
            BthfAudioState::Connected => self.hfp_audio_up(addr),
            BthfAudioState::Disconnected => self.hfp_audio_down(addr),
            _ => {},
        }
    }

    #[verifier::spinoff_prover]
    fn tel_answer(&mut self) -> (ok: bool)
        requires
            old(self).wf(),
        ensures
            final(self).wf(),
            final(self).hfp_walk() == old(self).hfp_walk(),
            final(self)@ == (MediaModel { telephony: final(self)@.telephony, ..old(self)@ }),
            answer_rel(old(self)@.telephony, final(self)@.telephony, ok),
    {
        self.telephony.answer_call_impl()
    }

    #[verifier::spinoff_prover]
    fn tel_hangup(&mut self) -> (ok: bool)
        requires
            old(self).wf(),
        ensures
            final(self).wf(),
            final(self).hfp_walk() == old(self).hfp_walk(),
            final(self)@ == (MediaModel { telephony: final(self)@.telephony, ..old(self)@ }),
            hangup_rel(old(self)@.telephony, final(self)@.telephony, ok),
    {
        self.telephony.hangup_call_impl()
    }

    #[verifier::spinoff_prover]
    fn tel_new_call(&mut self, number: String, incoming: bool) -> (ok: bool)
        requires
            old(self).wf(),
        ensures
            final(self).wf(),
            final(self).hfp_walk() == old(self).hfp_walk(),
            final(self)@ == (MediaModel { telephony: final(self)@.telephony, ..old(self)@ }),
            new_call_rel(old(self)@.telephony, final(self)@.telephony, ok, number@, incoming),
    {
        if incoming {
            self.telephony.incoming_call_impl(number)
        } else {
            self.telephony.dialing_call_impl(number)
        }
    }

    #[verifier::spinoff_prover]
    #[verifier::rlimit(100)]
    fn tel_hold(&mut self, cmd: CallHoldCommand) -> (ok: bool)
        requires
            old(self).wf(),
        ensures
            final(self).wf(),
            final(self).hfp_walk() == old(self).hfp_walk(),
            final(self)@ == (MediaModel { telephony: final(self)@.telephony, ..old(self)@ }),
            hold_rel(old(self)@.telephony, final(self)@.telephony, ok, cmd),
    {
        match cmd {
            CallHoldCommand::ReleaseHeld => self.telephony.release_held_impl(),
            CallHoldCommand::ReleaseActiveAcceptHeld => {
                self.telephony.release_active_accept_held_impl()
            },
            CallHoldCommand::HoldActiveAcceptHeld => self.telephony.hold_active_accept_held_impl(),
            CallHoldCommand::AddHeldToConf => false,
        }
    }

    #[verifier::spinoff_prover]
    fn tel_phone_ops(&mut self, enable: bool, slc: bool)
        requires
            old(self).wf(),
        ensures
            final(self).wf(),
            final(self).hfp_walk() == old(self).hfp_walk(),
            final(self)@ == (MediaModel { telephony: final(self)@.telephony, ..old(self)@ }),
            phone_ops_reset(old(self)@.telephony, final(self)@.telephony, enable, slc),
    {
        self.telephony.set_phone_ops_enabled(enable, slc)
    }

    #[verifier::spinoff_prover]
    fn tel_synthetic(&mut self, up: bool) -> (changed: bool)
        requires
            old(self).wf(),
        ensures
            final(self).wf(),
            final(self).hfp_walk() == old(self).hfp_walk(),
            final(self)@ == (MediaModel { telephony: final(self)@.telephony, ..old(self)@ }),
            synthetic_rel(old(self)@.telephony, final(self)@.telephony, changed, up),
    {
        if up {
            self.telephony.start_synthetic_call()
        } else {
            self.telephony.end_synthetic_call()
        }
    }

    #[verifier::spinoff_prover]
    #[verifier::rlimit(100)]
    fn hfp_answer_call(&mut self)
        requires
            old(self).wf(),
        ensures
            final(self).wf(),
            ({
                let ok = old(self)@.telephony.phone_ops_enabled
                    && !(old(self)@.telephony.phone_state.state is Idle);
                answer_rel(old(self)@.telephony, final(self)@.telephony, ok) && broadcast_after(
                    old(self)@,
                    final(self)@,
                    old(self).hfp_walk(),
                    Seq::empty(),
                    ok,
                    Seq::empty(),
                )
            }),
    {
        let ghost m = self@;
        let ok = self.tel_answer();
        assert(self@.effects =~= m.effects + Seq::<EffectView>::empty());
        if ok {
            self.phone_state_change(String::new());
        }
        assert(self@.effects =~= m.effects + Seq::<EffectView>::empty() + if ok
            && m.initialized {
            phone_state_effects(old(self).hfp_walk(), self@.telephony.phone_state, Seq::empty())
        } else {
            Seq::empty()
        });
    }

    #[verifier::spinoff_prover]
    #[verifier::rlimit(100)]
    fn hfp_hangup_call(&mut self)
        requires
            old(self).wf(),
        ensures
            final(self).wf(),
            ({
                let t = old(self)@.telephony;
                let ok = t.phone_ops_enabled && ((t.phone_state.state is Idle
                    && t.phone_state.num_active > 0) || crate::telephony::is_ringing(
                    t.phone_state.state,
                ));
                hangup_rel(t, final(self)@.telephony, ok) && broadcast_after(
                    old(self)@,
                    final(self)@,
                    old(self).hfp_walk(),
                    Seq::empty(),
                    ok,
                    Seq::empty(),
                )
            }),
    {
        let ghost m = self@;
        let ok = self.tel_hangup();
        assert(self@.effects =~= m.effects + Seq::<EffectView>::empty());
        if ok {
            self.phone_state_change(String::new());
        }
        assert(self@.effects =~= m.effects + Seq::<EffectView>::empty() + if ok
            && m.initialized {
            phone_state_effects(old(self).hfp_walk(), self@.telephony.phone_state, Seq::empty())
        } else {
            Seq::empty()
        });
    }

    #[verifier::spinoff_prover]
    #[verifier::rlimit(100)]
    fn hfp_dial_call(&mut self, number: String, addr: RawAddress)
        requires
            old(self).wf(),
        ensures
            final(self).wf(),
            ({
                let t = old(self)@.telephony;
                let target = crate::telephony::dial_target(
                    number@,
                    crate::telephony::opt_view(t.last_dialing_number),
                    crate::telephony::opt_view(t.memory_dialing_number),
                );
                let ok = target is Some && t.call_may_start();
                &&& target matches Some(n) ==> new_call_rel(
                    t,
                    final(self)@.telephony,
                    ok,
                    n,
                    false,
                )
                &&& target is None ==> final(self)@.telephony == t
                &&& broadcast_after(
                    old(self)@,
                    final(self)@,
                    old(self).hfp_walk(),
                    at_response(old(self)@, ok, addr),
                    ok,
                    Seq::empty(),
                )
            }),
    {
        let ghost m = self@;
        let target = self.telephony.dial_number(number);
        let ok = match target {
            Some(n) => self.tel_new_call(n, false),
            None => false,
        };
        // The headset hears OK or ERROR before the new call state.
        self.simple_at_response(ok, addr);
        if ok {
            self.phone_state_change(String::new());
        }
        assert(self@.effects =~= m.effects + at_response(m, ok, addr) + if ok
            && m.initialized {
            phone_state_effects(old(self).hfp_walk(), self@.telephony.phone_state, Seq::empty())
        } else {
            Seq::empty()
        });
    }

    #[verifier::spinoff_prover]
    #[verifier::rlimit(100)]
    fn hfp_call_hold(&mut self, cmd: CallHoldCommand, addr: RawAddress)
        requires
            old(self).wf(),
        ensures
            final(self).wf(),
            ({
                let t = old(self)@.telephony;
                let ok = t.phone_ops_enabled && t.phone_state.state is Idle && !(cmd is AddHeldToConf);
                &&& hold_rel(t, final(self)@.telephony, ok, cmd)
                &&& broadcast_after(
                    old(self)@,
                    final(self)@,
                    old(self).hfp_walk(),
                    at_response(old(self)@, ok, addr),
                    ok,
                    Seq::empty(),
                )
            }),
    {
        let ghost m = self@;
        let ok = self.tel_hold(cmd);
        self.simple_at_response(ok, addr);
        if ok {
            self.phone_state_change(String::new());
        }
        assert(self@.effects =~= m.effects + at_response(m, ok, addr) + if ok
            && m.initialized {
            phone_state_effects(old(self).hfp_walk(), self@.telephony.phone_state, Seq::empty())
        } else {
            Seq::empty()
        });
    }

    #[verifier::spinoff_prover]
    #[verifier::rlimit(100)]
    fn hfp_indicator_query(&mut self, addr: RawAddress)
        requires
            old(self).wf(),
        ensures
            final(self).wf(),
            final(self)@ == (MediaModel {
                effects: old(self)@.effects + if old(self)@.initialized {
                    seq![
                        EffectView::IndicatorQueryResponse(
                            old(self)@.telephony.telephony_device_status,
                            old(self)@.telephony.phone_state,
                            addr,
                        ),
                    ]
                } else {
                    Seq::empty()
                },
                ..old(self)@
            }),
    {
        let ghost m = self@;
        if self.initialized {
            let st = self.telephony.telephony_device_status;
            let ps = self.telephony.phone_state;
            self.emit(MediaEffect::IndicatorQueryResponse(st, ps, addr));
        }
        assert(self@.effects =~= m.effects + if m.initialized {
            seq![
                EffectView::IndicatorQueryResponse(
                    m.telephony.telephony_device_status,
                    m.telephony.phone_state,
                    addr,
                ),
            ]
        } else {
            Seq::empty()
        });
    }

    #[verifier::spinoff_prover]
    #[verifier::rlimit(100)]
    fn hfp_current_calls_query(&mut self, addr: RawAddress)
        requires
            old(self).wf(),
        ensures
            final(self).wf(),
            final(self)@ == (MediaModel {
                effects: old(self)@.effects + if old(self)@.initialized {
                    seq![
                        EffectView::CurrentCallsQueryResponse(
                            old(self)@.telephony.calls(),
                            addr,
                        ),
                    ]
                } else {
                    Seq::empty()
                },
                ..old(self)@
            }),
    {
        let ghost m = self@;
        if self.initialized {
            let calls = self.telephony.copy_calls();
            self.emit(MediaEffect::CurrentCallsQueryResponse(calls, addr));
        }
        assert(self@.effects =~= m.effects + if m.initialized {
            seq![EffectView::CurrentCallsQueryResponse(m.telephony.calls(), addr)]
        } else {
            Seq::empty()
        });
    }

    /// Follows an HFP event: connection and audio states, volume, battery
    /// and codec reports, and the headset's telephony queries and commands.
    #[verifier::spinoff_prover]
    #[verifier::rlimit(100)]
    pub fn dispatch_hfp_callbacks(&mut self, cb: HfpCallbacks, now: u64)
        requires
            old(self).wf(),
        ensures
            final(self).wf(),
            cb matches HfpCallbacks::ConnectionState(state, addr) ==> final(self)@
                == hfp_state_changed(old(self)@, addr, state, now),
            cb matches HfpCallbacks::AudioState(state, addr) ==> ({
                &&& (!slc_connected(old(self)@, addr) || state is Connecting
                    || state is Disconnecting ==> final(self)@ == old(self)@)
                &&& (slc_connected(old(self)@, addr) && state is Connected ==> ({
                    let m1 = MediaModel {
                        hfp_audio_state: old(self)@.hfp_audio_state.insert(addr, state),
                        ..old(self)@
                    };
                    let changed = !old(self)@.telephony.phone_ops_enabled
                        && old(self)@.telephony.phone_state.num_active != 1;
                    &&& synthetic_rel(old(self)@.telephony, final(self)@.telephony, changed, true)
                    &&& broadcast_after(
                        m1,
                        final(self)@,
                        old(self).hfp_walk(),
                        Seq::empty(),
                        changed,
                        Seq::empty(),
                    )
                }))
                &&& (slc_connected(old(self)@, addr) && state is Disconnected ==> ({
                    let m1 = MediaModel {
                        hfp_audio_state: old(self)@.hfp_audio_state.insert(addr, state),
                        ..old(self)@
                    };
                    let was_up = old(self)@.hfp_audio_state.contains_key(addr)
                        && old(self)@.hfp_audio_state[addr] == BthfAudioState::Connected;
                    let changed = !old(self)@.telephony.phone_ops_enabled
                        && old(self)@.telephony.phone_state.num_active != 0;
                    &&& synthetic_rel(old(self)@.telephony, final(self)@.telephony, changed, false)
                    &&& broadcast_after(
                        m1,
                        final(self)@,
                        old(self).hfp_walk(),
                        if was_up {
                            seq![EffectView::HfpAudioDisconnected(addr)]
                        } else {
                            Seq::empty()
                        },
                        changed,
                        Seq::empty(),
                    )
                }))
            }),
            cb matches HfpCallbacks::VolumeUpdate(v, addr) ==> final(self)@ == (MediaModel {
                effects: old(self)@.effects.push(EffectView::HfpVolumeChanged(v, addr)),
                ..old(self)@
            }),
            cb matches HfpCallbacks::BatteryLevelUpdate(l, addr) ==> final(self)@ == (MediaModel {
                effects: old(self)@.effects.push(EffectView::BatteryLevel(addr, l)),
                ..old(self)@
            }),
            cb matches HfpCallbacks::CapsUpdate(wbs, addr) ==> final(self)@ == (MediaModel {
                hfp_cap: old(self)@.hfp_cap.insert(
                    addr,
                    HfpCodecCapability {
                        bits: if wbs {
                            3u8
                        } else {
                            1u8
                        },
                    },
                ),
                ..old(self)@
            }),
            cb matches HfpCallbacks::IndicatorQuery(addr) ==> final(self)@ == (MediaModel {
                effects: old(self)@.effects + if old(self)@.initialized {
                    seq![
                        EffectView::IndicatorQueryResponse(
                            old(self)@.telephony.telephony_device_status,
                            old(self)@.telephony.phone_state,
                            addr,
                        ),
                    ]
                } else {
                    Seq::empty()
                },
                ..old(self)@
            }),
            cb matches HfpCallbacks::CurrentCallsQuery(addr) ==> final(self)@ == (MediaModel {
                effects: old(self)@.effects + if old(self)@.initialized {
                    seq![
                        EffectView::CurrentCallsQueryResponse(
                            old(self)@.telephony.calls(),
                            addr,
                        ),
                    ]
                } else {
                    Seq::empty()
                },
                ..old(self)@
            }),
            cb matches HfpCallbacks::AnswerCall(_) ==> ({
                let ok = old(self)@.telephony.phone_ops_enabled
                    && !(old(self)@.telephony.phone_state.state is Idle);
                answer_rel(old(self)@.telephony, final(self)@.telephony, ok) && broadcast_after(
                    old(self)@,
                    final(self)@,
                    old(self).hfp_walk(),
                    Seq::empty(),
                    ok,
                    Seq::empty(),
                )
            }),
            cb matches HfpCallbacks::HangupCall(_) ==> ({
                let t = old(self)@.telephony;
                let ok = t.phone_ops_enabled && ((t.phone_state.state is Idle
                    && t.phone_state.num_active > 0) || crate::telephony::is_ringing(
                    t.phone_state.state,
                ));
                hangup_rel(t, final(self)@.telephony, ok) && broadcast_after(
                    old(self)@,
                    final(self)@,
                    old(self).hfp_walk(),
                    Seq::empty(),
                    ok,
                    Seq::empty(),
                )
            }),
            cb matches HfpCallbacks::DialCall(number, addr) ==> ({
                let t = old(self)@.telephony;
                let target = crate::telephony::dial_target(
                    number@,
                    crate::telephony::opt_view(t.last_dialing_number),
                    crate::telephony::opt_view(t.memory_dialing_number),
                );
                let ok = target is Some && t.call_may_start();
                &&& target matches Some(n) ==> new_call_rel(
                    t,
                    final(self)@.telephony,
                    ok,
                    n,
                    false,
                )
                &&& target is None ==> final(self)@.telephony == t
                &&& broadcast_after(
                    old(self)@,
                    final(self)@,
                    old(self).hfp_walk(),
                    at_response(old(self)@, ok, addr),
                    ok,
                    Seq::empty(),
                )
            }),
            cb matches HfpCallbacks::CallHold(cmd, addr) ==> ({
                let t = old(self)@.telephony;
                let ok = t.phone_ops_enabled && t.phone_state.state is Idle && !(cmd is AddHeldToConf);
                &&& hold_rel(t, final(self)@.telephony, ok, cmd)
                &&& broadcast_after(
                    old(self)@,
                    final(self)@,
                    old(self).hfp_walk(),
                    at_response(old(self)@, ok, addr),
                    ok,
                    Seq::empty(),
                )
            }),
    {
        let ghost m = self@;
        match cb {
            HfpCallbacks::ConnectionState(state, addr) => {
                self.hfp_connection_state_changed(state, addr, now);
            },
            HfpCallbacks::AudioState(state, addr) => {
                self.hfp_audio_state_changed(state, addr);
            },
            HfpCallbacks::VolumeUpdate(volume, addr) => {
                self.emit(MediaEffect::HfpVolumeChanged(volume, addr));
            },
            HfpCallbacks::BatteryLevelUpdate(battery_level, addr) => {
                self.emit(MediaEffect::BatteryLevel(addr, battery_level));
            },
            HfpCallbacks::CapsUpdate(wbs_supported, addr) => {
                let cap = if wbs_supported {
                    HfpCodecCapability::cvsd_msbc()
                } else {
                    HfpCodecCapability::cvsd()
                };
                self.hfp_cap.insert(addr, cap);
            },
            HfpCallbacks::IndicatorQuery(addr) => {
                self.hfp_indicator_query(addr);
            },
            HfpCallbacks::CurrentCallsQuery(addr) => {
                self.hfp_current_calls_query(addr);
            },
            HfpCallbacks::AnswerCall(_addr) => {
                self.hfp_answer_call();
            },
            HfpCallbacks::HangupCall(_addr) => {
                self.hfp_hangup_call();
            },
            HfpCallbacks::DialCall(number, addr) => {
                self.hfp_dial_call(number, addr);
            },
            HfpCallbacks::CallHold(command, addr) => {
                self.hfp_call_hold(command, addr);
            },
        }
    }
}

/// The valid flag values of the A2DP sample rates, sample sizes and channel
/// modes.
pub const A2DP_SAMPLE_RATE_ALL: i32 = 0xff;

pub const A2DP_BITS_PER_SAMPLE_ALL: i32 = 0x7;

pub const A2DP_CHANNEL_MODE_ALL: i32 = 0x3;

/// A set of known flags: no bit outside `all`.
pub open spec fn valid_bits(v: i32, all: i32) -> bool {
    0 <= v <= all
}

/// The negotiated speech codec of a device whose HFP audio is up: 2 for
/// mSBC, 1 for CVSD (also when nothing was negotiated), 0 when audio is down.
pub open spec fn final_codec(m: MediaModel, addr: RawAddress) -> u8 {
    if m.hfp_audio_state.contains_key(addr) && m.hfp_audio_state[addr]
        == BthfAudioState::Connected {
        if m.hfp_cap.contains_key(addr) && m.hfp_cap[addr].bits & 2 == 2 {
            2
        } else {
            1
        }
    } else {
        0
    }
}

pub open spec fn any_a2dp_started(m: MediaModel) -> bool {
    exists|a: RawAddress|
        #![trigger m.a2dp_audio_state[a]]
        m.a2dp_audio_state.contains_key(a) && m.a2dp_audio_state[a] == BtavAudioState::Started
}

/// The model after a profile was enabled: with the backends up it is
/// enabled at once, else on initialization.
pub open spec fn profile_enabled(m: MediaModel, p: Profile) -> MediaModel {
    if !(p is A2dpSource || p is AvrcpTarget || p is Hfp) {
        m
    } else if m.initialized {
        MediaModel {
            effects: m.effects.push(EffectView::EnableProfile(p)),
            enabled_profiles: m.enabled_profiles.spec_with(p, true),
            delay_enable_profiles: m.delay_enable_profiles.spec_with(p, false),
            ..m
        }
    } else {
        MediaModel { delay_enable_profiles: m.delay_enable_profiles.spec_with(p, true), ..m }
    }
}

/// The model after a profile was disabled.
pub open spec fn profile_disabled(m: MediaModel, p: Profile) -> MediaModel {
    if !(p is A2dpSource || p is AvrcpTarget || p is Hfp) {
        m
    } else if m.initialized {
        MediaModel {
            effects: m.effects.push(EffectView::DisableProfile(p)),
            enabled_profiles: m.enabled_profiles.spec_with(p, false),
            delay_enable_profiles: m.delay_enable_profiles.spec_with(p, false),
            ..m
        }
    } else {
        MediaModel { delay_enable_profiles: m.delay_enable_profiles.spec_with(p, false), ..m }
    }
}

/// The model after the backends came up: the profiles whose enabling was
/// put off are enabled, and AVRCP target always is.
pub open spec fn initialized_model(m: MediaModel) -> MediaModel {
    let m0 = MediaModel {
        initialized: true,
        effects: m.effects.push(EffectView::InitializeBackends),
        ..m
    };
    let d = m.delay_enable_profiles;
    let m1 = if d.a2dp_source {
        profile_enabled(m0, Profile::A2dpSource)
    } else {
        m0
    };
    let m2 = if d.hfp {
        profile_enabled(m1, Profile::Hfp)
    } else {
        m1
    };
    let m3 = if d.avrcp_target {
        profile_enabled(m2, Profile::AvrcpTarget)
    } else {
        m2
    };
    profile_enabled(m3, Profile::AvrcpTarget)
}

/// A device as the adapter lists it.
pub struct BluetoothDevice {
    pub address: String,
    pub name: String,
}

/// The devices of `s` whose address is valid and has a media audio profile
/// connected, in their order.
pub open spec fn connected_audio_devices(m: MediaModel, s: Seq<(Seq<char>, Seq<char>)>) -> Seq<
    (Seq<char>, Seq<char>),
>
    decreases s.len(),
{
    if s.len() == 0 {
        s
    } else {
        let rest = connected_audio_devices(m, s.drop_last());
        let keep = match address_of(s.last().0) {
            Some(a) => {
                let p = profiles_of(m, a);
                p.a2dp_sink || p.hfp || p.avrcp_controller
            },
            None => false,
        };
        if keep {
            rest.push(s.last())
        } else {
            rest
        }
    }
}

pub open spec fn devices_view(v: Seq<BluetoothDevice>) -> Seq<(Seq<char>, Seq<char>)> {
    v.map_values(|d: BluetoothDevice| (d.address@, d.name@))
}

impl BluetoothMedia {
    #[verifier::spinoff_prover]
    pub fn enable_profile(&mut self, profile: Profile)
        requires
            old(self).wf(),
        ensures
            final(self).wf(),
            final(self)@ == profile_enabled(old(self)@, profile),
    {
        let ghost m = self@;
        match profile {
            Profile::A2dpSource | Profile::AvrcpTarget | Profile::Hfp => {},
            _ => {
                return;
            },
        }
        if self.initialized {
            self.emit(MediaEffect::EnableProfile(profile));
            self.enabled_profiles.set(profile, true);
            self.delay_enable_profiles.set(profile, false);
        } else {
            self.delay_enable_profiles.set(profile, true);
        }
    }

    #[verifier::spinoff_prover]
    pub fn disable_profile(&mut self, profile: Profile)
        requires
            old(self).wf(),
        ensures
            final(self).wf(),
            final(self)@ == profile_disabled(old(self)@, profile),
    {
        match profile {
            Profile::A2dpSource | Profile::AvrcpTarget | Profile::Hfp => {},
            _ => {
                return;
            },
        }
        if self.initialized {
            self.emit(MediaEffect::DisableProfile(profile));
            self.enabled_profiles.set(profile, false);
        }
        self.delay_enable_profiles.set(profile, false);
    }

    /// Whether a profile that the coordinator serves is enabled; `None` for
    /// the others.
    #[verifier::spinoff_prover]
    pub fn is_profile_enabled(&self, profile: Profile) -> (r: Option<bool>)
        requires
            self.wf(),
        ensures
            (profile is A2dpSource || profile is AvrcpTarget || profile is Hfp) ==> r == Some(
                self@.initialized && self@.enabled_profiles.has(profile),
            ),
            !(profile is A2dpSource || profile is AvrcpTarget || profile is Hfp) ==> r is None,
    {
        match profile {
            Profile::A2dpSource | Profile::AvrcpTarget | Profile::Hfp => Some(
                self.initialized && self.enabled_profiles.contains(profile),
            ),
            _ => None,
        }
    }

    #[verifier::spinoff_prover]
    fn any_hfp_state(&self, st: BthfConnectionState) -> (r: bool)
        requires
            self.wf(),
        ensures
            r == exists|a: RawAddress|
                #![trigger self@.hfp_states[a]]
                self@.hfp_states.contains_key(a) && self@.hfp_states[a] == st,
    {
        let ghost w = self.hfp_states.pairs();
        let mut i: usize = 0;
        while i < self.hfp_states.len()
            invariant
                self.wf(),
                w == self.hfp_states.pairs(),
                i <= w.len(),
                forall|j: int| 0 <= j < i ==> (#[trigger] w[j]).1 != st,
            decreases w.len() - i,
        {
            if *self.hfp_states.value_at(i) == st {
                proof {
                    self.hfp_states.lemma_pair(i as int);
                }
                return true;
            }
            i = i + 1;
        }
        proof {
            if exists|a: RawAddress|
                #![trigger self@.hfp_states[a]]
                self@.hfp_states.contains_key(a) && self@.hfp_states[a] == st {
                let a = choose|a: RawAddress|
                    #![trigger self@.hfp_states[a]]
                    self@.hfp_states.contains_key(a) && self@.hfp_states[a] == st;
                self.hfp_states.lemma_key(a);
                assert(w[self.hfp_states.index_of(a)].1 == st);
            }
        }
        false
    }

    #[verifier::spinoff_prover]
    fn any_hfp_audio(&self, st: BthfAudioState) -> (r: bool)
        requires
            self.wf(),
        ensures
            r == exists|a: RawAddress|
                #![trigger self@.hfp_audio_state[a]]
                self@.hfp_audio_state.contains_key(a) && self@.hfp_audio_state[a] == st,
    {
        let ghost w = self.hfp_audio_state.pairs();
        let mut i: usize = 0;
        while i < self.hfp_audio_state.len()
            invariant
                self.wf(),
                w == self.hfp_audio_state.pairs(),
                i <= w.len(),
                forall|j: int| 0 <= j < i ==> (#[trigger] w[j]).1 != st,
            decreases w.len() - i,
        {
            if *self.hfp_audio_state.value_at(i) == st {
                proof {
                    self.hfp_audio_state.lemma_pair(i as int);
                }
                return true;
            }
            i = i + 1;
        }
        proof {
            if exists|a: RawAddress|
                #![trigger self@.hfp_audio_state[a]]
                self@.hfp_audio_state.contains_key(a) && self@.hfp_audio_state[a] == st {
                let a = choose|a: RawAddress|
                    #![trigger self@.hfp_audio_state[a]]
                    self@.hfp_audio_state.contains_key(a) && self@.hfp_audio_state[a] == st;
                self.hfp_audio_state.lemma_key(a);
                assert(w[self.hfp_audio_state.index_of(a)].1 == st);
            }
        }
        false
    }

    #[verifier::spinoff_prover]
    fn any_a2dp_state(&self, st: BtavConnectionState) -> (r: bool)
        requires
            self.wf(),
        ensures
            r == exists|a: RawAddress|
                #![trigger self@.a2dp_states[a]]
                self@.a2dp_states.contains_key(a) && self@.a2dp_states[a] == st,
    {
        let ghost w = self.a2dp_states.pairs();
        let mut i: usize = 0;
        while i < self.a2dp_states.len()
            invariant
                self.wf(),
                w == self.a2dp_states.pairs(),
                i <= w.len(),
                forall|j: int| 0 <= j < i ==> (#[trigger] w[j]).1 != st,
            decreases w.len() - i,
        {
            if *self.a2dp_states.value_at(i) == st {
                proof {
                    self.a2dp_states.lemma_pair(i as int);
                }
                return true;
            }
            i = i + 1;
        }
        proof {
            if exists|a: RawAddress|
                #![trigger self@.a2dp_states[a]]
                self@.a2dp_states.contains_key(a) && self@.a2dp_states[a] == st {
                let a = choose|a: RawAddress|
                    #![trigger self@.a2dp_states[a]]
                    self@.a2dp_states.contains_key(a) && self@.a2dp_states[a] == st;
                self.a2dp_states.lemma_key(a);
                assert(w[self.a2dp_states.index_of(a)].1 == st);
            }
        }
        false
    }

    #[verifier::spinoff_prover]
    fn any_a2dp_audio(&self, st: BtavAudioState) -> (r: bool)
        requires
            self.wf(),
        ensures
            r == exists|a: RawAddress|
                #![trigger self@.a2dp_audio_state[a]]
                self@.a2dp_audio_state.contains_key(a) && self@.a2dp_audio_state[a] == st,
    {
        let ghost w = self.a2dp_audio_state.pairs();
        let mut i: usize = 0;
        while i < self.a2dp_audio_state.len()
            invariant
                self.wf(),
                w == self.a2dp_audio_state.pairs(),
                i <= w.len(),
                forall|j: int| 0 <= j < i ==> (#[trigger] w[j]).1 != st,
            decreases w.len() - i,
        {
            if *self.a2dp_audio_state.value_at(i) == st {
                proof {
                    self.a2dp_audio_state.lemma_pair(i as int);
                }
                return true;
            }
            i = i + 1;
        }
        proof {
            if exists|a: RawAddress|
                #![trigger self@.a2dp_audio_state[a]]
                self@.a2dp_audio_state.contains_key(a) && self@.a2dp_audio_state[a] == st {
                let a = choose|a: RawAddress|
                    #![trigger self@.a2dp_audio_state[a]]
                    self@.a2dp_audio_state.contains_key(a) && self@.a2dp_audio_state[a] == st;
                self.a2dp_audio_state.lemma_key(a);
                assert(w[self.a2dp_audio_state.index_of(a)].1 == st);
            }
        }
        false
    }

    /// HFP over all devices: active when some device's audio is up, else the
    /// most advanced connection state of any device.
    #[verifier::spinoff_prover]
    pub fn get_hfp_connection_state(&self) -> (r: ProfileConnectionState)
        requires
            self.wf(),
        ensures
            r == hfp_connection_state(self@),
    {
        if self.any_hfp_audio(BthfAudioState::Connected) {
            return ProfileConnectionState::Active;
        }
        if self.any_hfp_state(BthfConnectionState::SlcConnected) {
            assert(any_slc(self@)) by {
                let a = choose|a: RawAddress|
                    #![trigger self@.hfp_states[a]]
                    self@.hfp_states.contains_key(a) && self@.hfp_states[a]
                        == BthfConnectionState::SlcConnected;
                assert(slc_connected(self@, a));
            }
            return ProfileConnectionState::Connected;
        }
        assert(!any_slc(self@)) by {
            if any_slc(self@) {
                let a = choose|a: RawAddress| #[trigger] slc_connected(self@, a);
                assert(self@.hfp_states[a] == BthfConnectionState::SlcConnected);
            }
        }
        if self.any_hfp_state(BthfConnectionState::Connecting) || self.any_hfp_state(
            BthfConnectionState::Connected,
        ) {
            return ProfileConnectionState::Connecting;
        }
        if self.any_hfp_state(BthfConnectionState::Disconnecting) {
            return ProfileConnectionState::Disconnecting;
        }
        ProfileConnectionState::Disconnected
    }

    /// A2DP over all devices: active when some device streams, else the most
    /// advanced connection state of any device.
    #[verifier::spinoff_prover]
    pub fn get_a2dp_connection_state(&self) -> (r: ProfileConnectionState)
        requires
            self.wf(),
        ensures
            r == a2dp_connection_state(self@),
    {
        if self.any_a2dp_audio(BtavAudioState::Started) {
            return ProfileConnectionState::Active;
        }
        if self.any_a2dp_state(BtavConnectionState::Connected) {
            return ProfileConnectionState::Connected;
        }
        if self.any_a2dp_state(BtavConnectionState::Connecting) {
            return ProfileConnectionState::Connecting;
        }
        if self.any_a2dp_state(BtavConnectionState::Disconnecting) {
            return ProfileConnectionState::Disconnecting;
        }
        ProfileConnectionState::Disconnected
    }

    /// The devices with a valid address and a media audio profile connected.
    #[verifier::spinoff_prover]
    pub fn filter_to_connected_audio_devices_from(&self, devices: &Vec<BluetoothDevice>) -> (r: Vec<
        BluetoothDevice,
    >)
        requires
            self.wf(),
        ensures
            devices_view(r@) == connected_audio_devices(self@, devices_view(devices@)),
    {
        let ghost s = devices_view(devices@);
        let mut out: Vec<BluetoothDevice> = Vec::new();
        let mut i: usize = 0;
        while i < devices.len()
            invariant
                self.wf(),
                s == devices_view(devices@),
                i <= devices@.len(),
                devices_view(out@) == connected_audio_devices(self@, s.take(i as int)),
            decreases devices@.len() - i,
        {
            let d = &devices[i];
            let keep = match parse_address_text(&d.address) {
                Some(a) => self.is_any_media_profile_connected(&a),
                None => false,
            };
            proof {
                assert(s.take(i + 1).drop_last() =~= s.take(i as int));
                assert(s.take(i + 1).last() == s[i as int]);
            }
            let ghost before = devices_view(out@);
            if keep {
                out.push(BluetoothDevice { address: d.address.clone(), name: d.name.clone() });
                assert(devices_view(out@) =~= before.push(s[i as int]));
            }
            i = i + 1;
        }
        assert(s.take(devices@.len() as int) =~= s);
        out
    }
}

/// The coordinator's request surface.
pub trait IBluetoothMedia {
    spec fn inv(&self) -> bool;

    /// Brings up the A2DP, AVRCP and HFP backends, once.
    #[verifier::spinoff_prover]
    fn initialize(&mut self) -> (r: bool)
        requires
            old(self).inv(),
        ensures
            final(self).inv(),
    ;

    #[verifier::spinoff_prover]
    fn cleanup(&mut self) -> (r: bool)
        requires
            old(self).inv(),
        ensures
            final(self).inv(),
    ;

    /// Connects the available but missing media profiles.
    #[verifier::spinoff_prover]
    fn connect(&mut self, address: String)
        requires
            old(self).inv(),
        ensures
            final(self).inv(),
    ;

    #[verifier::spinoff_prover]
    fn disconnect(&mut self, address: String)
        requires
            old(self).inv(),
        ensures
            final(self).inv(),
    ;

    /// Makes the device the active A2DP device.
    #[verifier::spinoff_prover]
    fn set_active_device(&mut self, address: String)
        requires
            old(self).inv(),
        ensures
            final(self).inv(),
    ;

    /// Makes the device the active HFP device.
    #[verifier::spinoff_prover]
    fn set_hfp_active_device(&mut self, address: String)
        requires
            old(self).inv(),
        ensures
            final(self).inv(),
    ;

    #[verifier::spinoff_prover]
    fn set_audio_config(&mut self, sample_rate: i32, bits_per_sample: i32, channel_mode: i32) -> (r:
        bool)
        requires
            old(self).inv(),
        ensures
            final(self).inv(),
    ;

    /// Sets the A2DP/AVRCP volume, 0 to 127.
    #[verifier::spinoff_prover]
    fn set_volume(&mut self, volume: u8)
        requires
            old(self).inv(),
        ensures
            final(self).inv(),
    ;

    /// Sets the HFP speaker volume, 0 to 15.
    #[verifier::spinoff_prover]
    fn set_hfp_volume(&mut self, volume: u8, address: String)
        requires
            old(self).inv(),
        ensures
            final(self).inv(),
    ;

    /// Hands the request to the A2DP backend; true when it was handed out.
    /// The backend's own answer is not seen here.
    #[verifier::spinoff_prover]
    fn start_audio_request(&mut self) -> (r: bool)
        requires
            old(self).inv(),
        ensures
            final(self).inv(),
    ;

    #[verifier::spinoff_prover]
    fn stop_audio_request(&mut self)
        requires
            old(self).inv(),
        ensures
            final(self).inv(),
    ;

    /// Whether A2DP audio of the device has started.
    #[verifier::spinoff_prover]
    fn get_a2dp_audio_started(&mut self, address: String) -> (r: bool)
        requires
            old(self).inv(),
        ensures
            final(self).inv(),
    ;

    /// The negotiated codec (CVSD 1, mSBC 2) when HFP audio is up, else 0.
    #[verifier::spinoff_prover]
    fn get_hfp_audio_final_codecs(&mut self, address: String) -> (r: u8)
        requires
            old(self).inv(),
        ensures
            final(self).inv(),
    ;

    /// Asks for the SCO link that carries HFP audio; true when the request
    /// was handed to the HFP backend. Whether the backend accepts it (status
    /// 0) is for the caller that carries the request out.
    #[verifier::spinoff_prover]
    fn start_sco_call(&mut self, address: String, sco_offload: bool, force_cvsd: bool) -> (r: bool)
        requires
            old(self).inv(),
        ensures
            final(self).inv(),
    ;

    #[verifier::spinoff_prover]
    fn stop_sco_call(&mut self, address: String)
        requires
            old(self).inv(),
        ensures
            final(self).inv(),
    ;

    #[verifier::spinoff_prover]
    fn set_player_playback_status(&mut self, status: String)
        requires
            old(self).inv(),
        ensures
            final(self).inv(),
    ;

    #[verifier::spinoff_prover]
    fn set_player_position(&mut self, position: i64)
        requires
            old(self).inv(),
        ensures
            final(self).inv(),
    ;

    #[verifier::spinoff_prover]
    fn set_player_metadata(&mut self, metadata: PlayerMetadata)
        requires
            old(self).inv(),
        ensures
            final(self).inv(),
    ;
}

impl IBluetoothMedia for BluetoothMedia {
    open spec fn inv(&self) -> bool {
        self.wf()
    }

    #[verifier::spinoff_prover]
    fn initialize(&mut self) -> (r: bool)
        ensures
            r == !old(self)@.initialized,
            r ==> final(self)@ == initialized_model(old(self)@),
            !r ==> final(self)@ == old(self)@,
    {
        if self.initialized {
            return false;
        }
        self.initialized = true;
        self.emit(MediaEffect::InitializeBackends);
        let delayed = self.delay_enable_profiles;
        if delayed.a2dp_source {
            self.enable_profile(Profile::A2dpSource);
        }
        if delayed.hfp {
            self.enable_profile(Profile::Hfp);
        }
        if delayed.avrcp_target {
            self.enable_profile(Profile::AvrcpTarget);
        }
        // AVRCP target is always enabled: the stack fails when a headset
        // connects while it is off.
        self.enable_profile(Profile::AvrcpTarget);
        true
    }

    #[verifier::spinoff_prover]
    fn cleanup(&mut self) -> (r: bool)
        ensures
            r,
            final(self)@ == old(self)@,
    {
        true
    }

    #[verifier::spinoff_prover]
    fn connect(&mut self, address: String)
        ensures
            address_of(address@) matches Some(a) ==> final(self)@ == connect_model(old(self)@, a),
            address_of(address@) is None ==> final(self)@ == old(self)@,
    {
        match parse_address_text(&address) {
            Some(addr) => self.connect_addr(addr),
            None => {},
        }
    }

    #[verifier::spinoff_prover]
    fn disconnect(&mut self, address: String)
        ensures
            address_of(address@) matches Some(a) ==> final(self)@ == disconnect_model(
                old(self)@,
                a,
            ),
            address_of(address@) is None ==> final(self)@ == old(self)@,
    {
        match parse_address_text(&address) {
            Some(addr) => self.disconnect_addr(addr),
            None => {},
        }
    }

    #[verifier::spinoff_prover]
    fn set_active_device(&mut self, address: String)
        ensures
            address_of(address@) matches Some(a) ==> final(self)@ == (MediaModel {
                effects: old(self)@.effects + if old(self)@.initialized {
                    seq![EffectView::SetActiveDevice(a)]
                } else {
                    Seq::empty()
                } + seq![EffectView::UinputSetActiveDevice(a)],
                ..old(self)@
            }),
            address_of(address@) is None ==> final(self)@ == old(self)@,
    {
        let ghost m = self@;
        match parse_address_text(&address) {
            Some(addr) => {
                if self.initialized {
                    self.emit(MediaEffect::SetActiveDevice(addr));
                }
                self.emit(MediaEffect::UinputSetActiveDevice(addr));
                assert(self@.effects =~= m.effects + if m.initialized {
                    seq![EffectView::SetActiveDevice(addr)]
                } else {
                    Seq::empty()
                } + seq![EffectView::UinputSetActiveDevice(addr)]);
            },
            None => {},
        }
    }

    #[verifier::spinoff_prover]
    fn set_hfp_active_device(&mut self, address: String)
        ensures
            address_of(address@) matches Some(a) ==> final(self)@ == (MediaModel {
                effects: old(self)@.effects + if old(self)@.initialized {
                    seq![EffectView::SetHfpActiveDevice(a)]
                } else {
                    Seq::empty()
                },
                ..old(self)@
            }),
            address_of(address@) is None ==> final(self)@ == old(self)@,
    {
        let ghost m = self@;
        match parse_address_text(&address) {
            Some(addr) => {
                if self.initialized {
                    self.emit(MediaEffect::SetHfpActiveDevice(addr));
                }
                assert(self@.effects =~= m.effects + if m.initialized {
                    seq![EffectView::SetHfpActiveDevice(addr)]
                } else {
                    Seq::empty()
                });
            },
            None => {},
        }
    }

    #[verifier::spinoff_prover]
    fn set_audio_config(&mut self, sample_rate: i32, bits_per_sample: i32, channel_mode: i32) -> (r:
        bool)
        ensures
            r == (valid_bits(sample_rate, A2DP_SAMPLE_RATE_ALL) && valid_bits(
                bits_per_sample,
                A2DP_BITS_PER_SAMPLE_ALL,
            ) && valid_bits(channel_mode, A2DP_CHANNEL_MODE_ALL) && old(self)@.initialized),
            r ==> final(self)@ == (MediaModel {
                effects: old(self)@.effects.push(
                    EffectView::SetAudioConfig(sample_rate, bits_per_sample, channel_mode),
                ),
                ..old(self)@
            }),
            !r ==> final(self)@ == old(self)@,
    {
        if sample_rate < 0 || sample_rate > A2DP_SAMPLE_RATE_ALL || bits_per_sample < 0
            || bits_per_sample > A2DP_BITS_PER_SAMPLE_ALL || channel_mode < 0 || channel_mode
            > A2DP_CHANNEL_MODE_ALL {
            return false;
        }
        if !self.initialized {
            return false;
        }
        self.emit(MediaEffect::SetAudioConfig(sample_rate, bits_per_sample, channel_mode));
        true
    }

    #[verifier::spinoff_prover]
    fn set_volume(&mut self, volume: u8)
        ensures
            volume > 127 ==> final(self)@ == old(self)@,
            volume <= 127 ==> final(self)@ == (MediaModel {
                effects: old(self)@.effects + if old(self)@.initialized {
                    seq![EffectView::SetVolume(volume as i8)]
                } else {
                    Seq::empty()
                },
                ..old(self)@
            }),
    {
        let ghost m = self@;
        // The valid range 0-127 is exactly what fits an i8.
        if volume > 127 {
            return;
        }
        let vol = volume as i8;
        if self.initialized {
            self.emit(MediaEffect::SetVolume(vol));
        }
        assert(self@.effects =~= m.effects + if m.initialized {
            seq![EffectView::SetVolume(volume as i8)]
        } else {
            Seq::empty()
        });
    }

    #[verifier::spinoff_prover]
    fn set_hfp_volume(&mut self, volume: u8, address: String)
        ensures
            ({
                let ok = address_of(address@) is Some && volume <= 15
                    && old(self)@.hfp_states.contains_key(address_of(address@)->0);
                &&& ok ==> final(self)@ == (MediaModel {
                    effects: old(self)@.effects + if old(self)@.initialized {
                        seq![EffectView::SetHfpVolume(volume as i8, address_of(address@)->0)]
                    } else {
                        Seq::empty()
                    },
                    ..old(self)@
                })
                &&& !ok ==> final(self)@ == old(self)@
            }),
    {
        let ghost m = self@;
        let addr = match parse_address_text(&address) {
            Some(a) => a,
            None => {
                return;
            },
        };
        if volume > 15 {
            return;
        }
        if !self.hfp_states.contains_key(&addr) {
            return;
        }
        if self.initialized {
            self.emit(MediaEffect::SetHfpVolume(volume as i8, addr));
        }
        assert(self@.effects =~= m.effects + if m.initialized {
            seq![EffectView::SetHfpVolume(volume as i8, addr)]
        } else {
            Seq::empty()
        });
    }

    #[verifier::spinoff_prover]
    fn start_audio_request(&mut self) -> (r: bool)
        ensures
            r == old(self)@.initialized,
            r ==> final(self)@ == (MediaModel {
                effects: old(self)@.effects.push(EffectView::StartAudioRequest),
                ..old(self)@
            }),
            !r ==> final(self)@ == old(self)@,
    {
        if !self.initialized {
            return false;
        }
        self.emit(MediaEffect::StartAudioRequest);
        true
    }

    #[verifier::spinoff_prover]
    fn stop_audio_request(&mut self)
        ensures
            (any_a2dp_started(old(self)@) && old(self)@.initialized) ==> final(self)@ == (
            MediaModel {
                effects: old(self)@.effects.push(EffectView::StopAudioRequest),
                ..old(self)@
            }),
            !(any_a2dp_started(old(self)@) && old(self)@.initialized) ==> final(self)@ == old(
                self,
            )@,
    {
        if !self.any_a2dp_audio(BtavAudioState::Started) {
            return;
        }
        if self.initialized {
            self.emit(MediaEffect::StopAudioRequest);
        }
    }

    #[verifier::spinoff_prover]
    fn get_a2dp_audio_started(&mut self, address: String) -> (r: bool)
        ensures
            final(self)@ == old(self)@,
            r == (address_of(address@) matches Some(a) && old(self)@.a2dp_audio_state.contains_key(
                a,
            ) && old(self)@.a2dp_audio_state[a] == BtavAudioState::Started),
    {
        match parse_address_text(&address) {
            Some(addr) => match self.a2dp_audio_state.get(&addr) {
                Some(s) => *s == BtavAudioState::Started,
                None => false,
            },
            None => false,
        }
    }

    #[verifier::spinoff_prover]
    fn get_hfp_audio_final_codecs(&mut self, address: String) -> (r: u8)
        ensures
            final(self)@ == old(self)@,
            address_of(address@) matches Some(a) ==> r == final_codec(old(self)@, a),
            address_of(address@) is None ==> r == 0,
    {
        let addr = match parse_address_text(&address) {
            Some(a) => a,
            None => {
                return 0;
            },
        };
        let up = match self.hfp_audio_state.get(&addr) {
            Some(s) => *s == BthfAudioState::Connected,
            None => false,
        };
        if !up {
            return 0;
        }
        match self.hfp_cap.get(&addr) {
            Some(c) => {
                if c.bits & HFP_CODEC_MSBC == HFP_CODEC_MSBC {
                    2
                } else {
                    // CVSD, also when no codec was negotiated.
                    1
                }
            },
            None => 1,
        }
    }

    #[verifier::spinoff_prover]
    fn start_sco_call(&mut self, address: String, sco_offload: bool, force_cvsd: bool) -> (r: bool)
        ensures
            r == (address_of(address@) is Some && old(self)@.initialized),
            r ==> final(self)@ == (MediaModel {
                effects: old(self)@.effects.push(
                    EffectView::ConnectAudio(address_of(address@)->0, sco_offload, force_cvsd),
                ),
                ..old(self)@
            }),
            !r ==> final(self)@ == old(self)@,
    {
        let addr = match parse_address_text(&address) {
            Some(a) => a,
            None => {
                return false;
            },
        };
        if !self.initialized {
            return false;
        }
        self.emit(MediaEffect::ConnectAudio(addr, sco_offload, force_cvsd));
        true
    }

    #[verifier::spinoff_prover]
    fn stop_sco_call(&mut self, address: String)
        ensures
            (address_of(address@) is Some && old(self)@.initialized) ==> final(self)@ == (
            MediaModel {
                effects: old(self)@.effects.push(
                    EffectView::DisconnectAudio(address_of(address@)->0),
                ),
                ..old(self)@
            }),
            !(address_of(address@) is Some && old(self)@.initialized) ==> final(self)@ == old(
                self,
            )@,
    {
        match parse_address_text(&address) {
            Some(addr) => {
                if self.initialized {
                    self.emit(MediaEffect::DisconnectAudio(addr));
                }
            },
            None => {},
        }
    }

    #[verifier::spinoff_prover]
    fn set_player_playback_status(&mut self, status: String)
        ensures
            old(self)@.initialized ==> final(self)@ == (MediaModel {
                effects: old(self)@.effects.push(EffectView::SetPlaybackStatus(status@)),
                ..old(self)@
            }),
            !old(self)@.initialized ==> final(self)@ == old(self)@,
    {
        if self.initialized {
            self.emit(MediaEffect::SetPlaybackStatus(status));
        }
    }

    #[verifier::spinoff_prover]
    fn set_player_position(&mut self, position: i64)
        ensures
            old(self)@.initialized ==> final(self)@ == (MediaModel {
                effects: old(self)@.effects.push(EffectView::SetPosition(position)),
                ..old(self)@
            }),
            !old(self)@.initialized ==> final(self)@ == old(self)@,
    {
        if self.initialized {
            self.emit(MediaEffect::SetPosition(position));
        }
    }

    #[verifier::spinoff_prover]
    fn set_player_metadata(&mut self, metadata: PlayerMetadata)
        ensures
            old(self)@.initialized ==> final(self)@ == (MediaModel {
                effects: old(self)@.effects.push(
                    EffectView::SetMetadata(
                        metadata.title@,
                        metadata.artist@,
                        metadata.album@,
                        metadata.length_us,
                    ),
                ),
                ..old(self)@
            }),
            !old(self)@.initialized ==> final(self)@ == old(self)@,
    {
        if self.initialized {
            self.emit(MediaEffect::SetMetadata(metadata));
        }
    }
}


/// The model with a new device status, which every headset hears of.
pub open spec fn status_changed(
    m: MediaModel,
    w: Seq<(RawAddress, BthfConnectionState)>,
    st: TelephonyDeviceStatus,
) -> MediaModel {
    MediaModel {
        telephony: Telephony { telephony_device_status: st, ..m.telephony },
        effects: m.effects + if m.initialized {
            device_status_effects(w, st)
        } else {
            Seq::empty()
        },
        ..m
    }
}

impl BluetoothMedia {
    /// The phone state that headsets are told.
    pub fn phone_state(&self) -> (r: PhoneState)
        requires
            self.wf(),
        ensures
            r == self@.telephony.phone_state,
    {
        self.telephony.phone_state
    }

    /// A copy of the call list that headsets query.
    pub fn call_list(&self) -> (r: Vec<CallInfo>)
        requires
            self.wf(),
        ensures
            calls_view(r@) == self@.telephony.calls(),
    {
        self.telephony.copy_calls()
    }

    /// The lifecycle state of a device, if it has one.
    pub fn device_state(&self, addr: RawAddress) -> (r: Option<
        crate::lifecycle::DeviceConnectionStates,
    >)
        requires
            self.wf(),
        ensures
            r == (if self@.devices.contains_key(addr) {
                Some(self@.devices[addr].state)
            } else {
                None
            }),
    {
        match self.devices.get(&addr) {
            Some(l) => Some(l.state),
            None => None,
        }
    }

    fn update_status(&mut self, st: TelephonyDeviceStatus)
        requires
            old(self).wf(),
        ensures
            final(self).wf(),
            final(self)@ == status_changed(old(self)@, old(self).hfp_walk(), st),
    {
        let ghost m = self@;
        self.telephony.telephony_device_status = st;
        proof {
            reveal(Telephony::wf);
        }
        self.device_status_notification();
    }
}

/// Telephony as the phone side drives it.
pub trait IBluetoothTelephony {
    spec fn telephony_inv(&self) -> bool;

    /// Sets whether the device is connected to the cellular network.
    fn set_network_available(&mut self, network_available: bool)
        requires
            old(self).telephony_inv(),
        ensures
            final(self).telephony_inv(),
    ;

    /// Sets whether the device is roaming.
    fn set_roaming(&mut self, roaming: bool)
        requires
            old(self).telephony_inv(),
        ensures
            final(self).telephony_inv(),
    ;

    /// Sets the signal strength, 0 to 5.
    fn set_signal_strength(&mut self, signal_strength: i32) -> (r: bool)
        requires
            old(self).telephony_inv(),
        ensures
            final(self).telephony_inv(),
    ;

    /// Sets the battery level, 0 to 5.
    fn set_battery_level(&mut self, battery_level: i32) -> (r: bool)
        requires
            old(self).telephony_inv(),
        ensures
            final(self).telephony_inv(),
    ;

    /// Turns phone operations on or off; the call state starts afresh.
    fn set_phone_ops_enabled(&mut self, enable: bool)
        requires
            old(self).telephony_inv(),
        ensures
            final(self).telephony_inv(),
    ;

    /// Acts as if a call came in from `number`.
    fn incoming_call(&mut self, number: String) -> (r: bool)
        requires
            old(self).telephony_inv(),
        ensures
            final(self).telephony_inv(),
    ;

    /// Acts as if the phone dialed `number`.
    fn dialing_call(&mut self, number: String) -> (r: bool)
        requires
            old(self).telephony_inv(),
        ensures
            final(self).telephony_inv(),
    ;

    /// Answers the incoming or dialing call.
    fn answer_call(&mut self) -> (r: bool)
        requires
            old(self).telephony_inv(),
        ensures
            final(self).telephony_inv(),
    ;

    /// Hangs up the active, incoming or dialing call.
    fn hangup_call(&mut self) -> (r: bool)
        requires
            old(self).telephony_inv(),
        ensures
            final(self).telephony_inv(),
    ;

    /// Sets or clears the single memory slot, whatever slot a headset names.
    fn set_memory_call(&mut self, number: Option<String>) -> (r: bool)
        requires
            old(self).telephony_inv(),
        ensures
            final(self).telephony_inv(),
    ;

    /// Sets or clears the last dialed number.
    fn set_last_call(&mut self, number: Option<String>) -> (r: bool)
        requires
            old(self).telephony_inv(),
        ensures
            final(self).telephony_inv(),
    ;

    /// Releases all held calls.
    fn release_held(&mut self) -> (r: bool)
        requires
            old(self).telephony_inv(),
        ensures
            final(self).telephony_inv(),
    ;

    /// Releases the active call and accepts a held one.
    fn release_active_accept_held(&mut self) -> (r: bool)
        requires
            old(self).telephony_inv(),
        ensures
            final(self).telephony_inv(),
    ;

    /// Holds the active call and accepts a held one.
    fn hold_active_accept_held(&mut self) -> (r: bool)
        requires
            old(self).telephony_inv(),
        ensures
            final(self).telephony_inv(),
    ;
}

impl IBluetoothTelephony for BluetoothMedia {
    open spec fn telephony_inv(&self) -> bool {
        self.wf()
    }

    #[verifier::spinoff_prover]
    fn set_network_available(&mut self, network_available: bool)
        ensures
            ({
                let st = old(self)@.telephony.telephony_device_status;
                &&& st.network_available == network_available ==> final(self)@ == old(self)@
                &&& st.network_available != network_available ==> final(self)@
                    == status_changed(
                    old(self)@,
                    old(self).hfp_walk(),
                    TelephonyDeviceStatus { network_available, ..st },
                )
            }),
    {
        let st = self.telephony.telephony_device_status;
        if st.network_available == network_available {
            return;
        }
        self.update_status(TelephonyDeviceStatus { network_available, ..st });
    }

    #[verifier::spinoff_prover]
    fn set_roaming(&mut self, roaming: bool)
        ensures
            ({
                let st = old(self)@.telephony.telephony_device_status;
                &&& st.roaming == roaming ==> final(self)@ == old(self)@
                &&& st.roaming != roaming ==> final(self)@ == status_changed(
                    old(self)@,
                    old(self).hfp_walk(),
                    TelephonyDeviceStatus { roaming, ..st },
                )
            }),
    {
        let st = self.telephony.telephony_device_status;
        if st.roaming == roaming {
            return;
        }
        self.update_status(TelephonyDeviceStatus { roaming, ..st });
    }

    #[verifier::spinoff_prover]
    fn set_signal_strength(&mut self, signal_strength: i32) -> (r: bool)
        ensures
            r == (0 <= signal_strength <= 5),
            ({
                let st = old(self)@.telephony.telephony_device_status;
                &&& (!r || st.signal_strength == signal_strength) ==> final(self)@ == old(self)@
                &&& (r && st.signal_strength != signal_strength) ==> final(self)@
                    == status_changed(
                    old(self)@,
                    old(self).hfp_walk(),
                    TelephonyDeviceStatus { signal_strength, ..st },
                )
            }),
    {
        if signal_strength < 0 || signal_strength > 5 {
            return false;
        }
        let st = self.telephony.telephony_device_status;
        if st.signal_strength == signal_strength {
            return true;
        }
        self.update_status(TelephonyDeviceStatus { signal_strength, ..st });
        true
    }

    #[verifier::spinoff_prover]
    fn set_battery_level(&mut self, battery_level: i32) -> (r: bool)
        ensures
            r == (0 <= battery_level <= 5),
            ({
                let st = old(self)@.telephony.telephony_device_status;
                &&& (!r || st.battery_level == battery_level) ==> final(self)@ == old(self)@
                &&& (r && st.battery_level != battery_level) ==> final(self)@ == status_changed(
                    old(self)@,
                    old(self).hfp_walk(),
                    TelephonyDeviceStatus { battery_level, ..st },
                )
            }),
    {
        if battery_level < 0 || battery_level > 5 {
            return false;
        }
        let st = self.telephony.telephony_device_status;
        if st.battery_level == battery_level {
            return true;
        }
        self.update_status(TelephonyDeviceStatus { battery_level, ..st });
        true
    }

    /// The call state starts afresh on every call, and every headset hears
    /// of the new phone state.
    #[verifier::spinoff_prover]
    #[verifier::rlimit(100)]
    fn set_phone_ops_enabled(&mut self, enable: bool)
        ensures
            ({
                let slc = exists|a: RawAddress|
                    #![trigger old(self)@.hfp_states[a]]
                    old(self)@.hfp_states.contains_key(a) && old(self)@.hfp_states[a]
                        == BthfConnectionState::SlcConnected;
                &&& phone_ops_reset(old(self)@.telephony, final(self)@.telephony, enable, slc)
                &&& broadcast_after(
                    old(self)@,
                    final(self)@,
                    old(self).hfp_walk(),
                    Seq::empty(),
                    true,
                    Seq::empty(),
                )
            }),
    {
        let ghost m = self@;
        let slc = self.any_hfp_state(BthfConnectionState::SlcConnected);
        self.tel_phone_ops(enable, slc);
        self.phone_state_change(String::new());
        assert(self@.effects =~= m.effects + Seq::<EffectView>::empty() + if m.initialized {
            phone_state_effects(old(self).hfp_walk(), self@.telephony.phone_state, Seq::empty())
        } else {
            Seq::empty()
        });
    }

    #[verifier::spinoff_prover]
    #[verifier::rlimit(100)]
    fn incoming_call(&mut self, number: String) -> (r: bool)
        ensures
            new_call_rel(old(self)@.telephony, final(self)@.telephony, r, number@, true),
            broadcast_after(
                old(self)@,
                final(self)@,
                old(self).hfp_walk(),
                Seq::empty(),
                r,
                number@,
            ),
    {
        let ghost m = self@;
        let copy = number.clone();
        let ok = self.tel_new_call(number, true);
        assert(self@.effects =~= m.effects + Seq::<EffectView>::empty());
        if ok {
            // The headset hears the caller's number with the new state.
            self.phone_state_change(copy);
        }
        assert(self@.effects =~= m.effects + Seq::<EffectView>::empty() + if ok
            && m.initialized {
            phone_state_effects(old(self).hfp_walk(), self@.telephony.phone_state, number@)
        } else {
            Seq::empty()
        });
        ok
    }

    /// An empty number redials the last number, one starting with `>` dials
    /// the memory slot; without such a number nothing is dialed.
    #[verifier::spinoff_prover]
    #[verifier::rlimit(100)]
    fn dialing_call(&mut self, number: String) -> (r: bool)
        ensures
            ({
                let t = old(self)@.telephony;
                let target = crate::telephony::dial_target(
                    number@,
                    crate::telephony::opt_view(t.last_dialing_number),
                    crate::telephony::opt_view(t.memory_dialing_number),
                );
                &&& r == (target is Some && t.call_may_start())
                &&& target matches Some(n) ==> new_call_rel(t, final(self)@.telephony, r, n, false)
                &&& target is None ==> final(self)@.telephony == t
                &&& broadcast_after(
                    old(self)@,
                    final(self)@,
                    old(self).hfp_walk(),
                    Seq::empty(),
                    r,
                    Seq::empty(),
                )
            }),
    {
        let ghost m = self@;
        let target = self.telephony.dial_number(number);
        let ok = match target {
            Some(n) => self.tel_new_call(n, false),
            None => false,
        };
        assert(self@.effects =~= m.effects + Seq::<EffectView>::empty());
        if ok {
            self.phone_state_change(String::new());
        }
        assert(self@.effects =~= m.effects + Seq::<EffectView>::empty() + if ok
            && m.initialized {
            phone_state_effects(old(self).hfp_walk(), self@.telephony.phone_state, Seq::empty())
        } else {
            Seq::empty()
        });
        ok
    }

    #[verifier::spinoff_prover]
    #[verifier::rlimit(100)]
    fn answer_call(&mut self) -> (r: bool)
        ensures
            answer_rel(old(self)@.telephony, final(self)@.telephony, r),
            broadcast_after(
                old(self)@,
                final(self)@,
                old(self).hfp_walk(),
                Seq::empty(),
                r,
                Seq::empty(),
            ),
    {
        let ghost m = self@;
        let ok = self.tel_answer();
        assert(self@.effects =~= m.effects + Seq::<EffectView>::empty());
        if ok {
            self.phone_state_change(String::new());
        }
        assert(self@.effects =~= m.effects + Seq::<EffectView>::empty() + if ok
            && m.initialized {
            phone_state_effects(old(self).hfp_walk(), self@.telephony.phone_state, Seq::empty())
        } else {
            Seq::empty()
        });
        ok
    }

    #[verifier::spinoff_prover]
    #[verifier::rlimit(100)]
    fn hangup_call(&mut self) -> (r: bool)
        ensures
            hangup_rel(old(self)@.telephony, final(self)@.telephony, r),
            broadcast_after(
                old(self)@,
                final(self)@,
                old(self).hfp_walk(),
                Seq::empty(),
                r,
                Seq::empty(),
            ),
    {
        let ghost m = self@;
        let ok = self.tel_hangup();
        assert(self@.effects =~= m.effects + Seq::<EffectView>::empty());
        if ok {
            self.phone_state_change(String::new());
        }
        assert(self@.effects =~= m.effects + Seq::<EffectView>::empty() + if ok
            && m.initialized {
            phone_state_effects(old(self).hfp_walk(), self@.telephony.phone_state, Seq::empty())
        } else {
            Seq::empty()
        });
        ok
    }

    #[verifier::spinoff_prover]
    fn set_memory_call(&mut self, number: Option<String>) -> (r: bool)
        ensures
            r == old(self)@.telephony.phone_ops_enabled,
            r ==> final(self)@ == (MediaModel {
                telephony: Telephony {
                    memory_dialing_number: number,
                    ..old(self)@.telephony
                },
                ..old(self)@
            }),
            !r ==> final(self)@ == old(self)@,
    {
        proof {
            reveal(Telephony::wf);
        }
        if !self.telephony.phone_ops_enabled {
            return false;
        }
        self.telephony.memory_dialing_number = number;
        true
    }

    #[verifier::spinoff_prover]
    fn set_last_call(&mut self, number: Option<String>) -> (r: bool)
        ensures
            r == old(self)@.telephony.phone_ops_enabled,
            r ==> final(self)@ == (MediaModel {
                telephony: Telephony { last_dialing_number: number, ..old(self)@.telephony },
                ..old(self)@
            }),
            !r ==> final(self)@ == old(self)@,
    {
        proof {
            reveal(Telephony::wf);
        }
        if !self.telephony.phone_ops_enabled {
            return false;
        }
        self.telephony.last_dialing_number = number;
        true
    }

    #[verifier::spinoff_prover]
    #[verifier::rlimit(100)]
    fn release_held(&mut self) -> (r: bool)
        ensures
            hold_rel(
                old(self)@.telephony,
                final(self)@.telephony,
                r,
                CallHoldCommand::ReleaseHeld,
            ),
            broadcast_after(
                old(self)@,
                final(self)@,
                old(self).hfp_walk(),
                Seq::empty(),
                r,
                Seq::empty(),
            ),
    {
        let ghost m = self@;
        let ok = self.tel_hold(CallHoldCommand::ReleaseHeld);
        assert(self@.effects =~= m.effects + Seq::<EffectView>::empty());
        if ok {
            self.phone_state_change(String::new());
        }
        assert(self@.effects =~= m.effects + Seq::<EffectView>::empty() + if ok
            && m.initialized {
            phone_state_effects(old(self).hfp_walk(), self@.telephony.phone_state, Seq::empty())
        } else {
            Seq::empty()
        });
        ok
    }

    #[verifier::spinoff_prover]
    #[verifier::rlimit(100)]
    fn release_active_accept_held(&mut self) -> (r: bool)
        ensures
            hold_rel(
                old(self)@.telephony,
                final(self)@.telephony,
                r,
                CallHoldCommand::ReleaseActiveAcceptHeld,
            ),
            broadcast_after(
                old(self)@,
                final(self)@,
                old(self).hfp_walk(),
                Seq::empty(),
                r,
                Seq::empty(),
            ),
    {
        let ghost m = self@;
        let ok = self.tel_hold(CallHoldCommand::ReleaseActiveAcceptHeld);
        assert(self@.effects =~= m.effects + Seq::<EffectView>::empty());
        if ok {
            self.phone_state_change(String::new());
        }
        assert(self@.effects =~= m.effects + Seq::<EffectView>::empty() + if ok
            && m.initialized {
            phone_state_effects(old(self).hfp_walk(), self@.telephony.phone_state, Seq::empty())
        } else {
            Seq::empty()
        });
        ok
    }

    #[verifier::spinoff_prover]
    #[verifier::rlimit(100)]
    fn hold_active_accept_held(&mut self) -> (r: bool)
        ensures
            hold_rel(
                old(self)@.telephony,
                final(self)@.telephony,
                r,
                CallHoldCommand::HoldActiveAcceptHeld,
            ),
            broadcast_after(
                old(self)@,
                final(self)@,
                old(self).hfp_walk(),
                Seq::empty(),
                r,
                Seq::empty(),
            ),
    {
        let ghost m = self@;
        let ok = self.tel_hold(CallHoldCommand::HoldActiveAcceptHeld);
        assert(self@.effects =~= m.effects + Seq::<EffectView>::empty());
        if ok {
            self.phone_state_change(String::new());
        }
        assert(self@.effects =~= m.effects + Seq::<EffectView>::empty() + if ok
            && m.initialized {
            phone_state_effects(old(self).hfp_walk(), self@.telephony.phone_state, Seq::empty())
        } else {
            Seq::empty()
        });
        ok
    }
}

/// The battery provider that HFP battery reports go through.
pub struct BatteryProviderCallback {}

impl BatteryProviderCallback {
    pub fn new() -> (r: Self) {
        Self {  }
    }

    /// HFP battery information cannot be refreshed on request.
    pub fn refresh_battery_info(&self) {
    }

    pub fn get_object_id(&self) -> (r: String)
        ensures
            r@ == "HFP BatteryProvider Callback"@,
    {
        "HFP BatteryProvider Callback".to_owned()
    }
}

} // verus!
