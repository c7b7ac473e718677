use bt_media::address::RawAddress;
use bt_media::events::{
    BthfAudioState, BthfConnectionState, CallHoldCommand, HfpCallbacks, MediaEffect,
    ProfileConnectionState,
};
use bt_media::media::{BluetoothMedia, IBluetoothMedia, IBluetoothTelephony};
use bt_media::profile::ProfileSet;
use bt_media::telephony::{CallInfo, CallState, PhoneState};

const ADDR: &str = "AA:BB:CC:DD:EE:01";

fn addr() -> RawAddress {
    RawAddress::from_string(ADDR).unwrap()
}

fn hfp_only() -> ProfileSet {
    ProfileSet {
        a2dp_sink: false,
        a2dp_source: false,
        hfp: true,
        avrcp_controller: false,
        avrcp_target: false,
    }
}

/// A coordinator with its backends up and one headset whose service level
/// connection is up.
fn media_with_headset() -> BluetoothMedia {
    let mut media = BluetoothMedia::new();
    media.set_remote_device(addr(), "Headset".to_string(), hfp_only());
    media.initialize();
    media.dispatch_hfp_callbacks(
        HfpCallbacks::ConnectionState(BthfConnectionState::SlcConnected, addr()),
        0,
    );
    media.take_effects();
    media
}

fn counts_match(media: &BluetoothMedia) -> bool {
    let ps = media.phone_state();
    let calls = media.call_list();
    let active = calls.iter().filter(|c| c.state == CallState::Active).count() as u32;
    let held = calls.iter().filter(|c| c.state == CallState::Held).count() as u32;
    ps.num_active == active && ps.num_held == held
}

fn indices(calls: &[CallInfo]) -> Vec<i32> {
    calls.iter().map(|c| c.index).collect()
}

#[test]
fn synthetic_call_for_audio_wakeup() {
    let mut media = media_with_headset();
    media.dispatch_hfp_callbacks(HfpCallbacks::AudioState(BthfAudioState::Connected, addr()), 10);
    let ps = media.phone_state();
    assert_eq!(ps, PhoneState { num_active: 1, num_held: 0, state: CallState::Idle });
    let effects = media.take_effects();
    assert_eq!(effects.len(), 1);
    match &effects[0] {
        MediaEffect::PhoneStateChange(p, number, a) => {
            assert_eq!(*p, ps);
            assert_eq!(number, "");
            assert_eq!(*a, addr());
        }
        _ => panic!("expected a phone state change"),
    }
    assert_eq!(media.get_hfp_connection_state(), ProfileConnectionState::Active);

    media.dispatch_hfp_callbacks(
        HfpCallbacks::AudioState(BthfAudioState::Disconnected, addr()),
        20,
    );
    assert_eq!(media.phone_state().num_active, 0);
    assert!(media.call_list().is_empty());
    let effects = media.take_effects();
    assert_eq!(effects.len(), 2);
    assert!(matches!(effects[0], MediaEffect::HfpAudioDisconnected(_)));
    match &effects[1] {
        MediaEffect::PhoneStateChange(p, number, _) => {
            assert_eq!(p.num_active, 0);
            assert_eq!(number, "");
        }
        _ => panic!("expected a phone state change"),
    }
    assert_eq!(media.get_hfp_connection_state(), ProfileConnectionState::Connected);
}

#[test]
fn call_hold_juggling() {
    let mut media = media_with_headset();
    media.set_phone_ops_enabled(true);
    assert!(media.incoming_call("+1".to_string()));
    assert!(media.answer_call());
    assert_eq!(media.phone_state(), PhoneState { num_active: 1, num_held: 0, state: CallState::Idle });
    assert!(!media.dialing_call("+2".to_string()));
    assert!(media.hold_active_accept_held());
    assert_eq!(media.phone_state(), PhoneState { num_active: 0, num_held: 1, state: CallState::Idle });
    let calls = media.call_list();
    assert_eq!(calls.len(), 1);
    assert_eq!(calls[0].state, CallState::Held);
    assert!(media.incoming_call("+3".to_string()));
    assert!(media.answer_call());
    assert_eq!(media.phone_state(), PhoneState { num_active: 1, num_held: 1, state: CallState::Idle });
    assert!(media.release_active_accept_held());
    assert_eq!(media.phone_state(), PhoneState { num_active: 1, num_held: 0, state: CallState::Idle });
    let calls = media.call_list();
    assert_eq!(calls.len(), 1);
    assert_eq!(calls[0].number, "+1");
    assert_eq!(calls[0].state, CallState::Active);
    assert!(counts_match(&media));
}

#[test]
fn new_call_index_is_smallest_free() {
    let mut media = media_with_headset();
    media.set_phone_ops_enabled(true);
    assert!(media.incoming_call("+1".to_string()));
    assert!(media.answer_call());
    assert!(media.hold_active_accept_held());
    assert!(media.incoming_call("+2".to_string()));
    assert_eq!(indices(&media.call_list()), vec![1, 2]);
    assert!(media.answer_call());
    // Hanging up the active call frees index 2.
    assert!(media.hangup_call());
    assert_eq!(indices(&media.call_list()), vec![1]);
    assert!(media.incoming_call("+3".to_string()));
    assert_eq!(indices(&media.call_list()), vec![1, 2]);
    assert!(counts_match(&media));
}

#[test]
fn counts_follow_every_command() {
    let mut media = media_with_headset();
    media.set_phone_ops_enabled(true);
    assert!(counts_match(&media));
    assert!(media.dialing_call("555".to_string()));
    assert_eq!(media.phone_state().state, CallState::Dialing);
    assert!(counts_match(&media));
    assert!(media.answer_call());
    assert!(counts_match(&media));
    assert!(media.hold_active_accept_held());
    assert!(counts_match(&media));
    assert!(media.hold_active_accept_held());
    assert!(counts_match(&media));
    // The second hold brought the held call back.
    assert_eq!(media.phone_state(), PhoneState { num_active: 1, num_held: 0, state: CallState::Idle });
    assert!(media.release_held());
    assert!(counts_match(&media));
    assert!(media.hangup_call());
    assert_eq!(media.phone_state(), PhoneState { num_active: 0, num_held: 0, state: CallState::Idle });
    assert!(media.call_list().is_empty());
    assert!(!media.hangup_call());
    assert!(!media.answer_call());
}

#[test]
fn commands_refused_while_phone_ops_disabled() {
    let mut media = media_with_headset();
    assert!(!media.incoming_call("+1".to_string()));
    assert!(!media.dialing_call("+1".to_string()));
    assert!(!media.answer_call());
    assert!(!media.hangup_call());
    assert!(!media.release_held());
    assert!(!media.set_memory_call(Some("1".to_string())));
    assert!(!media.set_last_call(None));
}

#[test]
fn disabling_phone_ops_keeps_stand_in_call_for_headset() {
    let mut media = media_with_headset();
    media.set_phone_ops_enabled(true);
    assert!(media.incoming_call("+1".to_string()));
    media.set_phone_ops_enabled(false);
    assert_eq!(media.phone_state(), PhoneState { num_active: 1, num_held: 0, state: CallState::Idle });
    let calls = media.call_list();
    assert_eq!(calls.len(), 1);
    assert_eq!(calls[0].index, 1);
    assert_eq!(calls[0].state, CallState::Active);
}

#[test]
fn dial_from_memory_answers_before_state_change() {
    let mut media = media_with_headset();
    media.set_phone_ops_enabled(true);
    assert!(media.set_memory_call(Some("12345".to_string())));
    media.take_effects();
    media.dispatch_hfp_callbacks(HfpCallbacks::DialCall(">3".to_string(), addr()), 0);
    let calls = media.call_list();
    assert_eq!(calls.len(), 1);
    assert_eq!(calls[0].number, "12345");
    assert!(!calls[0].dir_incoming);
    let effects = media.take_effects();
    assert_eq!(effects.len(), 2);
    assert!(matches!(effects[0], MediaEffect::SimpleAtResponse(true, _)));
    assert!(matches!(effects[1], MediaEffect::PhoneStateChange(..)));
}

#[test]
fn redial_without_last_number_is_an_error() {
    let mut media = media_with_headset();
    media.set_phone_ops_enabled(true);
    media.take_effects();
    media.dispatch_hfp_callbacks(HfpCallbacks::DialCall(String::new(), addr()), 0);
    assert!(media.call_list().is_empty());
    let effects = media.take_effects();
    assert_eq!(effects.len(), 1);
    assert!(matches!(effects[0], MediaEffect::SimpleAtResponse(false, _)));
}

#[test]
fn unsupported_call_hold_is_an_error() {
    let mut media = media_with_headset();
    media.set_phone_ops_enabled(true);
    media.take_effects();
    media.dispatch_hfp_callbacks(HfpCallbacks::CallHold(CallHoldCommand::AddHeldToConf, addr()), 0);
    let effects = media.take_effects();
    assert_eq!(effects.len(), 1);
    assert!(matches!(effects[0], MediaEffect::SimpleAtResponse(false, _)));
}

#[test]
fn signal_and_battery_ranges() {
    let mut media = media_with_headset();
    assert!(!media.set_signal_strength(6));
    assert!(!media.set_battery_level(-1));
    assert!(media.take_effects().is_empty());
    assert!(media.set_signal_strength(3));
    let effects = media.take_effects();
    assert_eq!(effects.len(), 1);
    match &effects[0] {
        MediaEffect::DeviceStatusNotification(st, a) => {
            assert_eq!(st.signal_strength, 3);
            assert_eq!(*a, addr());
        }
        _ => panic!("expected a device status notification"),
    }
    // Unchanged values are not sent again.
    assert!(media.set_signal_strength(3));
    assert!(media.take_effects().is_empty());
}

#[test]
fn final_codec_follows_wideband_support() {
    let mut media = media_with_headset();
    assert_eq!(media.get_hfp_audio_final_codecs(ADDR.to_string()), 0);
    media.dispatch_hfp_callbacks(HfpCallbacks::CapsUpdate(true, addr()), 0);
    media.dispatch_hfp_callbacks(HfpCallbacks::AudioState(BthfAudioState::Connected, addr()), 0);
    assert_eq!(media.get_hfp_audio_final_codecs(ADDR.to_string()), 2);
    media.dispatch_hfp_callbacks(HfpCallbacks::CapsUpdate(false, addr()), 0);
    assert_eq!(media.get_hfp_audio_final_codecs(ADDR.to_string()), 1);
    assert_eq!(media.get_hfp_audio_final_codecs("bad".to_string()), 0);
}

#[test]
fn dialing_call_substitutes_last_and_memory_numbers() {
    let mut media = media_with_headset();
    media.set_phone_ops_enabled(true);
    assert!(!media.dialing_call(">2".to_string()));
    assert!(!media.dialing_call(String::new()));
    assert!(media.set_last_call(Some("777".to_string())));
    assert!(media.dialing_call(String::new()));
    let calls = media.call_list();
    assert_eq!(calls.len(), 1);
    assert_eq!(calls[0].number, "777");
    assert_eq!(calls[0].state, CallState::Dialing);
}

#[test]
fn phone_ops_reset_on_every_call() {
    let mut media = media_with_headset();
    media.set_phone_ops_enabled(true);
    assert!(media.set_last_call(Some("1".to_string())));
    assert!(media.incoming_call("+1".to_string()));
    media.take_effects();
    media.set_phone_ops_enabled(true);
    assert!(media.call_list().is_empty());
    assert_eq!(media.phone_state(), PhoneState { num_active: 0, num_held: 0, state: CallState::Idle });
    // The last number is gone too.
    assert!(!media.dialing_call(String::new()));
    let effects = media.take_effects();
    assert_eq!(effects.len(), 1);
    assert!(matches!(effects[0], MediaEffect::PhoneStateChange(..)));
}
