use amd_freq_guard::settings::bool_or;
use amd_freq_guard::settings::text_or;
use amd_freq_guard::settings::threshold_or;
use amd_freq_guard::settings::unsigned_or;
use amd_freq_guard::settings::FrequencyMode;
use amd_freq_guard::settings::SettingError;
use amd_freq_guard::settings::SettingKey;
use amd_freq_guard::settings::SettingValue;
use amd_freq_guard::settings::Settings;
use amd_freq_guard::settings::StoredSettings;
use amd_freq_guard::settings::MIN_AUTO_SWITCH_THRESHOLD;
use amd_freq_guard::settings_store::add_setting_hook;
use amd_freq_guard::settings_store::get_alert_debounce_seconds;
use amd_freq_guard::settings_store::get_auto_switch_enabled;
use amd_freq_guard::settings_store::get_auto_switch_threshold;
use amd_freq_guard::settings_store::get_frequency_detection_enabled;
use amd_freq_guard::settings_store::get_frequency_mode;
use amd_freq_guard::settings_store::get_frequency_threshold;
use amd_freq_guard::settings_store::get_refresh_interval;
use amd_freq_guard::settings_store::get_setting;
use amd_freq_guard::settings_store::get_settings;
use amd_freq_guard::settings_store::get_trigger_action_enabled;
use amd_freq_guard::settings_store::init_settings_store;
use amd_freq_guard::settings_store::is_trigger_action_master_switch_enabled;
use amd_freq_guard::settings_store::set_skip_frequency_mode_persist;
use amd_freq_guard::settings_store::set_trigger_action_master_switch;
use amd_freq_guard::settings_store::update_setting;
use amd_freq_guard::settings_store::update_settings;
use amd_freq_guard::settings_store::SettingsStore;
use amd_freq_guard::settings_store::StoreError;
use amd_freq_guard::settings_store::UpdateSettingError;

#[test]
fn defaults_of_a_fresh_installation() {
    let d = Settings::default();
    assert!(!d.auto_start);
    assert!(!d.auto_minimize);
    assert_eq!(d.refresh_interval, 5000);
    assert_eq!(d.frequency_threshold_mhz, 2900);
    assert_eq!(d.frequency_mode, "1");
    assert!(!d.auto_switch_enabled);
    assert_eq!(d.auto_switch_threshold, 15);
    assert!(!d.trigger_action_enabled);
    assert!(!d.frequency_detection_enabled);
    assert_eq!(d.alert_debounce_seconds, 10);
    assert_eq!(d.accepted_terms_of_service, 0);
}

#[test]
fn frequency_mode_codes() {
    assert_eq!(FrequencyMode::SysInfo.as_code(), "1");
    assert_eq!(FrequencyMode::CalcMhz.as_code(), "2");
    assert_eq!(FrequencyMode::from_code("1"), FrequencyMode::SysInfo);
    assert_eq!(FrequencyMode::from_code("2"), FrequencyMode::CalcMhz);
    assert_eq!(FrequencyMode::from_code("3"), FrequencyMode::CalcMhz);
    assert_eq!(FrequencyMode::from_code(""), FrequencyMode::CalcMhz);
    assert_eq!(FrequencyMode::default(), FrequencyMode::SysInfo);
}

#[test]
fn every_key_is_found_by_its_name() {
    let keys = [
        SettingKey::AutoStart,
        SettingKey::AutoMinimize,
        SettingKey::RefreshInterval,
        SettingKey::FrequencyThreshold,
        SettingKey::FrequencyMode,
        SettingKey::AutoSwitchEnabled,
        SettingKey::AutoSwitchThreshold,
        SettingKey::TriggerActionEnabled,
        SettingKey::FrequencyDetectionEnabled,
        SettingKey::AlertDebounceSeconds,
    ];
    for key in keys {
        assert_eq!(SettingKey::parse(key.name()), Some(key));
    }
    assert_eq!(SettingKey::parse("accepted_terms_of_service"), None);
    assert_eq!(SettingKey::parse(""), None);
    assert_eq!(SettingKey::AlertDebounceSeconds.name(), "alert_debounce_seconds");
}

#[test]
fn values_are_read_by_their_kind() {
    assert_eq!(SettingValue::Bool(true).as_bool(), Some(true));
    assert_eq!(SettingValue::Unsigned(1).as_bool(), None);
    assert_eq!(SettingValue::Unsigned(7).as_u64(), Some(7));
    assert_eq!(SettingValue::Decimal(7000).as_u64(), None);
    assert_eq!(SettingValue::Text("x".to_string()).as_str(), Some("x"));
    assert_eq!(SettingValue::Other.as_str(), None);
    assert_eq!(SettingValue::Unsigned(3).as_threshold_mhz(), Some(3000));
    assert_eq!(SettingValue::Decimal(3500).as_threshold_mhz(), Some(3500));
    assert_eq!(SettingValue::Decimal(-1).as_threshold_mhz(), Some(-1));
    assert_eq!(SettingValue::Unsigned(u64::MAX).as_threshold_mhz(), Some(i64::MAX));
    assert_eq!(
        SettingValue::Unsigned(9_223_372_036_854_775).as_threshold_mhz(),
        Some(9_223_372_036_854_775_000)
    );
    assert_eq!(SettingValue::Unsigned(9_223_372_036_854_776).as_threshold_mhz(), Some(i64::MAX));
    assert_eq!(SettingValue::Bool(true).as_threshold_mhz(), None);
    assert!(matches!(SettingValue::Text("a".to_string()).copy(), SettingValue::Text(t) if t == "a"));
}

#[test]
fn settings_take_values_of_their_kind() {
    let mut s = Settings::default();
    assert_eq!(s.set_setting("auto_start", &SettingValue::Bool(true)), Ok(()));
    assert!(s.auto_start);
    assert_eq!(s.set_setting("auto_minimize", &SettingValue::Bool(true)), Ok(()));
    assert!(s.auto_minimize);
    assert_eq!(s.set_setting("refresh_interval", &SettingValue::Unsigned(250)), Ok(()));
    assert_eq!(s.refresh_interval, 250);
    assert_eq!(s.set_setting("frequency_threshold", &SettingValue::Decimal(3500)), Ok(()));
    assert_eq!(s.frequency_threshold_mhz, 3500);
    assert_eq!(s.set_setting("frequency_threshold", &SettingValue::Unsigned(4)), Ok(()));
    assert_eq!(s.frequency_threshold_mhz, 4000);
    assert_eq!(s.set_setting("frequency_mode", &SettingValue::Text("2".to_string())), Ok(()));
    assert_eq!(s.frequency_mode, "2");
    assert_eq!(s.set_setting("auto_switch_enabled", &SettingValue::Bool(true)), Ok(()));
    assert!(s.auto_switch_enabled);
    assert_eq!(s.set_setting("auto_switch_threshold", &SettingValue::Unsigned(5)), Ok(()));
    assert_eq!(s.auto_switch_threshold, 5);
    assert_eq!(s.set_setting("trigger_action_enabled", &SettingValue::Bool(true)), Ok(()));
    assert!(s.trigger_action_enabled);
    assert_eq!(s.set_setting("frequency_detection_enabled", &SettingValue::Bool(true)), Ok(()));
    assert!(s.frequency_detection_enabled);
    assert_eq!(s.set_setting("alert_debounce_seconds", &SettingValue::Unsigned(1)), Ok(()));
    assert_eq!(s.alert_debounce_seconds, 1);
}

#[test]
fn refused_values_change_nothing() {
    let mut s = Settings::default();
    assert_eq!(
        s.set_setting("auto_start", &SettingValue::Unsigned(1)),
        Err(SettingError::InvalidType)
    );
    assert_eq!(
        s.set_setting("refresh_interval", &SettingValue::Decimal(1500)),
        Err(SettingError::InvalidType)
    );
    assert_eq!(
        s.set_setting("frequency_threshold", &SettingValue::Text("3".to_string())),
        Err(SettingError::InvalidType)
    );
    assert_eq!(
        s.set_setting("frequency_mode", &SettingValue::Unsigned(2)),
        Err(SettingError::InvalidType)
    );
    assert_eq!(
        s.set_setting("auto_switch_threshold", &SettingValue::Unsigned(4)),
        Err(SettingError::AutoSwitchThresholdTooSmall)
    );
    assert_eq!(
        s.set_setting("auto_switch_threshold", &SettingValue::Text("9".to_string())),
        Err(SettingError::AutoSwitchThresholdTooSmall)
    );
    assert_eq!(
        s.set_setting("alert_debounce_seconds", &SettingValue::Unsigned(0)),
        Err(SettingError::DebounceNotPositive)
    );
    assert_eq!(
        s.set_setting("alert_debounce_seconds", &SettingValue::Bool(true)),
        Err(SettingError::DebounceNotPositive)
    );
    assert_eq!(s.set_setting("nothing", &SettingValue::Bool(true)), Err(SettingError::UnknownKey));
    assert_eq!(
        s.set_setting("accepted_terms_of_service", &SettingValue::Unsigned(1)),
        Err(SettingError::UnknownKey)
    );
    let d = Settings::default();
    assert_eq!(s.refresh_interval, d.refresh_interval);
    assert_eq!(s.auto_switch_threshold, d.auto_switch_threshold);
    assert_eq!(s.alert_debounce_seconds, d.alert_debounce_seconds);
    assert_eq!(s.frequency_mode, d.frequency_mode);
    assert_eq!(s.frequency_threshold_mhz, d.frequency_threshold_mhz);
    assert_eq!(MIN_AUTO_SWITCH_THRESHOLD, 5);
}

#[test]
fn settings_are_read_back_by_name() {
    let s = Settings::default();
    assert!(matches!(s.get_setting("auto_start"), Ok(SettingValue::Bool(false))));
    assert!(matches!(s.get_setting("refresh_interval"), Ok(SettingValue::Unsigned(5000))));
    assert!(matches!(s.get_setting("frequency_threshold"), Ok(SettingValue::Decimal(2900))));
    assert!(matches!(s.get_setting("frequency_mode"), Ok(SettingValue::Text(t)) if t == "1"));
    assert!(matches!(s.get_setting("auto_switch_threshold"), Ok(SettingValue::Unsigned(15))));
    assert!(matches!(s.get_setting("alert_debounce_seconds"), Ok(SettingValue::Unsigned(10))));
    assert!(matches!(s.get_setting("what"), Err(SettingError::UnknownKey)));
    assert!(matches!(s.get(SettingKey::TriggerActionEnabled), SettingValue::Bool(false)));
}

#[test]
fn stored_settings_are_repaired_field_by_field() {
    let mut stored = StoredSettings::empty();
    stored.refresh_interval = Some(SettingValue::Unsigned(750));
    stored.frequency_mode = Some(SettingValue::Unsigned(2));
    stored.auto_start = Some(SettingValue::Bool(true));
    stored.frequency_threshold = Some(SettingValue::Decimal(3250));
    stored.alert_debounce_seconds = Some(SettingValue::Text("soon".to_string()));
    stored.accepted_terms_of_service = Some(SettingValue::Unsigned(1));
    let s = Settings::from_stored(&stored);
    assert_eq!(s.refresh_interval, 750);
    assert_eq!(s.frequency_mode, "1");
    assert!(s.auto_start);
    assert_eq!(s.frequency_threshold_mhz, 3250);
    assert_eq!(s.alert_debounce_seconds, 10);
    assert_eq!(s.accepted_terms_of_service, 1);
    assert_eq!(s.auto_switch_threshold, 15);
    let d = Settings::from_stored(&StoredSettings::empty());
    assert_eq!(d.refresh_interval, 5000);
    assert_eq!(d.frequency_mode, "1");
}

#[test]
fn fallbacks_for_stored_values() {
    assert!(bool_or(&Some(SettingValue::Bool(true)), false));
    assert!(bool_or(&Some(SettingValue::Other), true));
    assert!(!bool_or(&None, false));
    assert_eq!(unsigned_or(&Some(SettingValue::Unsigned(3)), 9), 3);
    assert_eq!(unsigned_or(&Some(SettingValue::Decimal(3)), 9), 9);
    assert_eq!(threshold_or(&Some(SettingValue::Unsigned(3)), 9), 3000);
    assert_eq!(threshold_or(&None, 9), 9);
    assert_eq!(text_or(&Some(SettingValue::Text("a".to_string())), "b"), "a");
    assert_eq!(text_or(&Some(SettingValue::Bool(true)), "b"), "b");
}

#[test]
fn sampling_mode_can_be_kept_out_of_storage() {
    let mut s = Settings::default();
    s.frequency_mode = "2".to_string();
    s.refresh_interval = 123;
    let kept = s.for_storage(true, "1");
    assert_eq!(kept.frequency_mode, "1");
    assert_eq!(kept.refresh_interval, 123);
    let written = s.for_storage(false, "1");
    assert_eq!(written.frequency_mode, "2");
    let mut store = SettingsStore::new(s.copy());
    assert_eq!(store.settings_to_save("1").frequency_mode, "2");
    store.set_skip_frequency_mode_persist(true);
    assert_eq!(store.settings_to_save("1").frequency_mode, "1");
    assert_eq!(store.settings_to_save("1").refresh_interval, 123);
}

#[test]
fn readers_fall_back_while_no_store_exists() {
    assert_eq!(get_frequency_threshold(None), 3000);
    assert!(!get_auto_switch_enabled(None));
    assert_eq!(get_auto_switch_threshold(None), 0);
    assert_eq!(get_refresh_interval(None), 1000);
    assert_eq!(get_trigger_action_enabled(None), Err(StoreError::NotInitialized));
    assert_eq!(is_trigger_action_master_switch_enabled(None), Err(StoreError::NotInitialized));
    assert_eq!(get_alert_debounce_seconds(None), 15);
    assert!(!get_frequency_detection_enabled(None));
    assert_eq!(get_frequency_mode(None), "1");
    assert_eq!(get_settings(None).refresh_interval, 5000);
    assert!(matches!(get_setting(None, "auto_start"), Err(UpdateSettingError::NotInitialized)));
}

#[test]
fn readers_read_the_store() {
    let mut s = Settings::default();
    s.frequency_threshold_mhz = 3100;
    s.auto_switch_enabled = true;
    s.auto_switch_threshold = 7;
    s.refresh_interval = 300;
    s.trigger_action_enabled = true;
    s.alert_debounce_seconds = 42;
    s.frequency_detection_enabled = true;
    s.frequency_mode = "2".to_string();
    let store = SettingsStore::new(s);
    assert_eq!(get_frequency_threshold(Some(&store)), 3100);
    assert!(get_auto_switch_enabled(Some(&store)));
    assert_eq!(get_auto_switch_threshold(Some(&store)), 7);
    assert_eq!(get_refresh_interval(Some(&store)), 300);
    assert_eq!(get_trigger_action_enabled(Some(&store)), Ok(true));
    assert_eq!(get_alert_debounce_seconds(Some(&store)), 42);
    assert!(get_frequency_detection_enabled(Some(&store)));
    assert_eq!(get_frequency_mode(Some(&store)), "2");
    assert_eq!(get_settings(Some(&store)).refresh_interval, 300);
    assert!(matches!(
        get_setting(Some(&store), "refresh_interval"),
        Ok(SettingValue::Unsigned(300))
    ));
    assert!(matches!(
        get_setting(Some(&store), "bogus"),
        Err(UpdateSettingError::Refused(SettingError::UnknownKey))
    ));
    assert_eq!(store.settings().refresh_interval, 300);
    assert_eq!(store.get_settings().refresh_interval, 300);
}

#[test]
fn hooks_are_handed_back_in_registration_order() {
    let mut store = SettingsStore::new(Settings::default());
    store.add_setting_hook("refresh_interval", 11);
    store.add_setting_hook("frequency_mode", 22);
    store.add_setting_hook("refresh_interval", 33);
    assert_eq!(store.trigger_hooks("refresh_interval"), vec![11, 33]);
    assert_eq!(store.trigger_hooks("frequency_mode"), vec![22]);
    assert_eq!(store.trigger_hooks("auto_start"), Vec::<u64>::new());
    let called = store
        .validate_and_update_setting("refresh_interval", &SettingValue::Unsigned(900))
        .unwrap();
    assert_eq!(called, vec![11, 33]);
    assert_eq!(store.settings().refresh_interval, 900);
    let refused =
        store.validate_and_update_setting("refresh_interval", &SettingValue::Bool(true));
    assert_eq!(refused, Err(SettingError::InvalidType));
    assert_eq!(store.settings().refresh_interval, 900);
    assert_eq!(store.set_frequency_mode(FrequencyMode::CalcMhz), vec![22]);
    assert_eq!(store.settings().frequency_mode, "2");
}

#[test]
fn store_setters() {
    let mut store = SettingsStore::new(Settings::default());
    assert_eq!(store.set_setting("auto_start", &SettingValue::Bool(true)), Ok(()));
    assert!(store.settings().auto_start);
    assert!(matches!(store.get_setting("auto_start"), Ok(SettingValue::Bool(true))));
    assert_eq!(
        store.set_setting("auto_start", &SettingValue::Other),
        Err(SettingError::InvalidType)
    );
    store.set_trigger_action_master_switch(true);
    assert!(store.get_trigger_action_master_switch());
    let mut replaced = Settings::default();
    replaced.refresh_interval = 1;
    store.update_settings(replaced);
    assert_eq!(store.settings().refresh_interval, 1);
    assert!(!store.get_trigger_action_master_switch());
}

#[test]
fn the_store_slot_is_set_up_once() {
    let mut slot: Option<SettingsStore> = None;
    assert_eq!(set_trigger_action_master_switch(&mut slot, true), Err(StoreError::NotInitialized));
    assert_eq!(update_settings(&mut slot, Settings::default()), Err(StoreError::NotInitialized));
    assert_eq!(set_skip_frequency_mode_persist(&mut slot, true), Err(StoreError::NotInitialized));
    assert_eq!(add_setting_hook(&mut slot, "auto_start", 1), Err(StoreError::NotInitialized));
    assert_eq!(
        update_setting(&mut slot, "auto_start", &SettingValue::Bool(true)),
        Err(UpdateSettingError::NotInitialized)
    );
    assert_eq!(init_settings_store(&mut slot, Settings::default()), Ok(()));
    assert_eq!(
        init_settings_store(&mut slot, Settings::default()),
        Err(StoreError::AlreadyInitialized)
    );
    assert_eq!(set_trigger_action_master_switch(&mut slot, true), Ok(()));
    assert_eq!(get_trigger_action_enabled(slot.as_ref()), Ok(true));
    assert_eq!(add_setting_hook(&mut slot, "auto_start", 5), Ok(()));
    assert_eq!(update_setting(&mut slot, "auto_start", &SettingValue::Bool(true)), Ok(vec![5]));
    assert_eq!(
        update_setting(&mut slot, "auto_start", &SettingValue::Unsigned(1)),
        Err(UpdateSettingError::Refused(SettingError::InvalidType))
    );
    assert_eq!(set_skip_frequency_mode_persist(&mut slot, true), Ok(()));
    let mut next = Settings::default();
    next.refresh_interval = 77;
    assert_eq!(update_settings(&mut slot, next), Ok(()));
    assert_eq!(get_refresh_interval(slot.as_ref()), 77);
}
