use bt_media::address::RawAddress;
use bt_media::events::{
    A2dpCallbacks, AvrcpCallbacks, BtStatus, BtavConnectionState, BthfConnectionState,
    HfpCallbacks, MediaActions, MediaEffect,
};
use bt_media::lifecycle::{DeviceConnectionStates, FallbackStage};
use bt_media::media::{BluetoothMedia, IBluetoothMedia};
use bt_media::profile::{Profile, ProfileSet};

const ADDR: &str = "00:11:22:33:44:55";

fn addr() -> RawAddress {
    RawAddress::from_string(ADDR).unwrap()
}

fn a2dp_and_hfp() -> ProfileSet {
    ProfileSet {
        a2dp_sink: true,
        a2dp_source: false,
        hfp: true,
        avrcp_controller: false,
        avrcp_target: false,
    }
}

/// A coordinator with its backends up and a headset offering A2DP and HFP.
fn ready_media() -> BluetoothMedia {
    let mut media = BluetoothMedia::new();
    media.set_remote_device(addr(), "Headset".to_string(), a2dp_and_hfp());
    assert!(media.initialize());
    media.take_effects();
    media
}

fn a2dp_connected(media: &mut BluetoothMedia, now: u64) {
    media.dispatch_a2dp_callbacks(
        A2dpCallbacks::ConnectionState(addr(), BtavConnectionState::Connected, BtStatus::Success),
        now,
    );
}

fn hfp_state(media: &mut BluetoothMedia, state: BthfConnectionState, now: u64) {
    media.dispatch_hfp_callbacks(HfpCallbacks::ConnectionState(state, addr()), now);
}

fn count_added(effects: &[MediaEffect]) -> usize {
    effects.iter().filter(|e| matches!(e, MediaEffect::DeviceAdded(_))).count()
}

fn count_removed(effects: &[MediaEffect]) -> usize {
    effects.iter().filter(|e| matches!(e, MediaEffect::DeviceRemoved(_))).count()
}

#[test]
fn happy_path_announces_device_when_hfp_joins() {
    let mut media = ready_media();
    a2dp_connected(&mut media, 0);
    let effects = media.take_effects();
    assert_eq!(effects.len(), 1);
    match &effects[0] {
        MediaEffect::ArmFallback { addr: a, token, retry_at, give_up_at } => {
            assert_eq!(*a, addr());
            assert_eq!(*token, 0);
            assert_eq!(*retry_at, Some(6000));
            assert_eq!(*give_up_at, 10000);
        }
        _ => panic!("expected a fallback timer"),
    }

    hfp_state(&mut media, BthfConnectionState::SlcConnected, 3000);
    let effects = media.take_effects();
    assert_eq!(effects.len(), 2);
    assert!(matches!(effects[0], MediaEffect::CancelFallback { token: 0, .. }));
    match &effects[1] {
        MediaEffect::DeviceAdded(d) => {
            assert_eq!(d.address, ADDR);
            assert_eq!(d.name, "Headset");
            assert!(d.a2dp_caps.is_empty());
            assert_eq!(d.hfp_cap.bits, 1);
            assert!(!d.absolute_volume);
        }
        _ => panic!("expected the device to be announced"),
    }
    assert_eq!(media.device_state(addr()), Some(DeviceConnectionStates::FullyConnected));
    // The cancelled timer cannot act any more.
    assert!(media.dispatch_fallback_timer(addr(), 0, FallbackStage::Retry).is_none());
    assert!(media.dispatch_fallback_timer(addr(), 0, FallbackStage::GiveUp).is_none());
    assert_eq!(media.device_state(addr()), Some(DeviceConnectionStates::FullyConnected));
    assert!(media.take_effects().is_empty());
}

#[test]
fn retry_then_success_announces_without_disconnect() {
    let mut media = ready_media();
    a2dp_connected(&mut media, 0);
    media.take_effects();

    let action = media.dispatch_fallback_timer(addr(), 0, FallbackStage::Retry);
    match action {
        Some(MediaActions::Connect(s)) => {
            assert_eq!(s, ADDR);
            media.dispatch_media_actions(MediaActions::Connect(s));
        }
        _ => panic!("expected a connect action"),
    }
    assert_eq!(media.device_state(addr()), Some(DeviceConnectionStates::ConnectingAfterRetry));
    let effects = media.take_effects();
    assert_eq!(effects.len(), 1);
    assert!(matches!(effects[0], MediaEffect::ConnectProfile(Profile::Hfp, _)));

    hfp_state(&mut media, BthfConnectionState::SlcConnected, 7000);
    let effects = media.take_effects();
    assert_eq!(count_added(&effects), 1);
    assert!(media.dispatch_fallback_timer(addr(), 0, FallbackStage::GiveUp).is_none());
    assert_eq!(media.device_state(addr()), Some(DeviceConnectionStates::FullyConnected));
}

#[test]
fn retry_then_fail_gives_up_silently() {
    let mut media = ready_media();
    a2dp_connected(&mut media, 0);
    media.take_effects();

    let retry = media.dispatch_fallback_timer(addr(), 0, FallbackStage::Retry);
    assert!(matches!(retry, Some(MediaActions::Connect(_))));
    let give_up = media.dispatch_fallback_timer(addr(), 0, FallbackStage::GiveUp);
    match give_up {
        Some(MediaActions::Disconnect(s)) => assert_eq!(s, ADDR),
        _ => panic!("expected a disconnect action"),
    }
    assert_eq!(media.device_state(addr()), Some(DeviceConnectionStates::Disconnecting));
    let effects = media.take_effects();
    assert_eq!(count_added(&effects), 0);
    assert_eq!(count_removed(&effects), 0);
}

#[test]
fn critical_drop_after_announce_removes_once() {
    let mut media = ready_media();
    a2dp_connected(&mut media, 0);
    hfp_state(&mut media, BthfConnectionState::SlcConnected, 3000);
    media.take_effects();

    hfp_state(&mut media, BthfConnectionState::Disconnected, 5000);
    let effects = media.take_effects();
    assert_eq!(count_removed(&effects), 1);
    assert!(effects
        .iter()
        .any(|e| matches!(e, MediaEffect::DisconnectProfile(Profile::A2dpSink, _))));
    assert_eq!(media.device_state(addr()), Some(DeviceConnectionStates::Disconnecting));
    // The disconnected headset is forgotten: its volume is no longer set.
    media.set_hfp_volume(5, ADDR.to_string());
    assert!(media.take_effects().is_empty());

    // Later profile events leave a disconnecting device alone.
    hfp_state(&mut media, BthfConnectionState::SlcConnected, 6000);
    assert_eq!(media.device_state(addr()), Some(DeviceConnectionStates::Disconnecting));
    let effects = media.take_effects();
    assert_eq!(count_added(&effects), 0);
}

#[test]
fn critical_drop_before_announce_cancels_timer() {
    let mut media = ready_media();
    a2dp_connected(&mut media, 0);
    media.take_effects();
    media.dispatch_a2dp_callbacks(
        A2dpCallbacks::ConnectionState(addr(), BtavConnectionState::Disconnected, BtStatus::Success),
        1000,
    );
    let effects = media.take_effects();
    assert_eq!(count_removed(&effects), 0);
    assert!(matches!(effects[0], MediaEffect::CancelFallback { token: 0, .. }));
    // The last profile is gone: the device is forgotten.
    assert_eq!(media.device_state(addr()), None);
}

#[test]
fn duplicate_state_event_is_dropped() {
    let mut media = ready_media();
    a2dp_connected(&mut media, 0);
    media.take_effects();
    a2dp_connected(&mut media, 100);
    assert!(media.take_effects().is_empty());
}

#[test]
fn connect_skips_avrcp_while_a2dp_missing() {
    let mut media = BluetoothMedia::new();
    let all = ProfileSet {
        a2dp_sink: true,
        a2dp_source: false,
        hfp: true,
        avrcp_controller: true,
        avrcp_target: false,
    };
    media.set_remote_device(addr(), String::new(), all);
    media.initialize();
    media.take_effects();
    media.connect(ADDR.to_string());
    let effects = media.take_effects();
    assert_eq!(effects.len(), 2);
    assert!(matches!(effects[0], MediaEffect::ConnectProfile(Profile::A2dpSink, _)));
    assert!(matches!(effects[1], MediaEffect::ConnectProfile(Profile::Hfp, _)));
}

#[test]
fn malformed_address_is_ignored() {
    let mut media = ready_media();
    media.connect("not an address".to_string());
    media.disconnect("00:11:22:33:44".to_string());
    assert!(media.take_effects().is_empty());
}

#[test]
fn volume_above_range_is_dropped() {
    let mut media = ready_media();
    media.set_volume(128);
    media.set_volume(255);
    assert!(media.take_effects().is_empty());
    media.set_volume(127);
    let effects = media.take_effects();
    assert_eq!(effects.len(), 1);
    assert!(matches!(effects[0], MediaEffect::SetVolume(127)));
}

#[test]
fn device_name_falls_back_to_address() {
    let mut media = BluetoothMedia::new();
    media.set_remote_device(addr(), String::new(), a2dp_and_hfp());
    media.initialize();
    a2dp_connected(&mut media, 0);
    hfp_state(&mut media, BthfConnectionState::SlcConnected, 10);
    let effects = media.take_effects();
    let named = effects.iter().any(|e| match e {
        MediaEffect::DeviceAdded(d) => d.name == ADDR,
        _ => false,
    });
    assert!(named);
}

#[test]
fn volume_support_notice_only_before_announce() {
    let mut media = ready_media();
    a2dp_connected(&mut media, 0);
    media.take_effects();
    media.dispatch_avrcp_callbacks(AvrcpCallbacks::AvrcpDeviceConnected(addr(), true), 100);
    let effects = media.take_effects();
    assert!(matches!(effects[0], MediaEffect::UinputCreate(..)));
    assert!(matches!(effects[1], MediaEffect::AbsoluteVolumeSupportedChanged(true)));

    hfp_state(&mut media, BthfConnectionState::SlcConnected, 200);
    let effects = media.take_effects();
    let announced_with_volume = effects.iter().any(|e| match e {
        MediaEffect::DeviceAdded(d) => d.absolute_volume,
        _ => false,
    });
    assert!(announced_with_volume);

    media.dispatch_avrcp_callbacks(AvrcpCallbacks::AvrcpDeviceDisconnected(addr()), 300);
    media.take_effects();
    media.dispatch_avrcp_callbacks(AvrcpCallbacks::AvrcpDeviceConnected(addr(), true), 400);
    let effects = media.take_effects();
    assert!(!effects
        .iter()
        .any(|e| matches!(e, MediaEffect::AbsoluteVolumeSupportedChanged(_))));
}
