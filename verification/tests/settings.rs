use yt_music::settings::{
    check_update_channel, telemetry_change_note, telemetry_enabled_from, telemetry_setting,
    toggled_telemetry, update_channel_from, update_channel_setting, SettingValue,
};

#[test]
fn telemetry_disabled_by_default() {
    assert!(!telemetry_enabled_from(&None));
    assert!(!telemetry_enabled_from(&Some(SettingValue::Other)));
    assert!(!telemetry_enabled_from(&Some(SettingValue::Text("true".into()))));
}

#[test]
fn telemetry_read_after_write_and_toggle() {
    assert!(telemetry_enabled_from(&Some(telemetry_setting(true))));
    assert!(!telemetry_enabled_from(&Some(telemetry_setting(false))));
    assert!(toggled_telemetry(&None));
    let once = toggled_telemetry(&Some(telemetry_setting(true)));
    assert!(!once);
    let twice = toggled_telemetry(&Some(telemetry_setting(once)));
    assert!(twice);
}

#[test]
fn telemetry_notes() {
    assert_eq!(telemetry_change_note(true), "telemetry enabled");
    assert_eq!(telemetry_change_note(false), "telemetry disabled");
}

#[test]
fn update_channel_defaults_to_stable() {
    assert_eq!(update_channel_from(&None), "stable");
    assert_eq!(update_channel_from(&Some(SettingValue::Bool(true))), "stable");
    assert_eq!(update_channel_from(&Some(update_channel_setting("beta"))), "beta");
}

#[test]
fn set_update_channel_accepts_only_known() {
    assert!(check_update_channel("stable").is_ok());
    assert!(check_update_channel("beta").is_ok());
    assert_eq!(
        check_update_channel("nightly"),
        Err("channel must be 'stable' or 'beta'".to_string())
    );
    assert!(check_update_channel("Stable").is_err());
    assert!(check_update_channel("").is_err());
}
