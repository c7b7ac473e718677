use bt_media::address::RawAddress;
use bt_media::media::BatteryProviderCallback;

#[test]
fn parses_both_cases() {
    let a = RawAddress::from_string("0a:0B:0c:0D:0e:0F").unwrap();
    assert_eq!(a.address, 0x0A0B0C0D0E0F);
    let b = RawAddress::from_string("FF:FF:FF:FF:FF:FF").unwrap();
    assert_eq!(b.address, 0xFFFF_FFFF_FFFF);
}

#[test]
fn rejects_malformed_text() {
    assert!(RawAddress::from_string("").is_none());
    assert!(RawAddress::from_string("00:11:22:33:44").is_none());
    assert!(RawAddress::from_string("00:11:22:33:44:5G").is_none());
    assert!(RawAddress::from_string("00-11-22-33-44-55").is_none());
    assert!(RawAddress::from_string("00:11:22:33:44:55:66").is_none());
}

#[test]
fn formats_uppercase_with_colons() {
    let a = RawAddress { address: 0x0A0B0C0D0E0F };
    assert_eq!(a.to_string(), "0A:0B:0C:0D:0E:0F");
    let b = RawAddress::from_string("de:ad:be:ef:00:01").unwrap();
    assert_eq!(b.to_string(), "DE:AD:BE:EF:00:01");
}

#[test]
fn battery_provider_callback_names_itself() {
    let cb = BatteryProviderCallback::new();
    cb.refresh_battery_info();
    assert_eq!(cb.get_object_id(), "HFP BatteryProvider Callback");
}
