use dash::common::{EventKind, ServiceId};
use dash::settings::v1::SettingsApi;
use dash::settings::{defaults, handle_event, validate, ServiceError, SettingsService, SettingsSnapshot};

#[test]
fn set_valid_volume_normalizes_and_stores() {
    let mut s = SettingsService::new();
    // Leading zero is normalized away.
    let stored = s.set("volume", "07").unwrap();
    assert_eq!(stored, "7");
    assert_eq!(s.get("volume").unwrap().as_deref(), Some("7"));
}

#[test]
fn set_valid_theme() {
    let mut s = SettingsService::new();
    assert_eq!(s.set("theme", "light").unwrap(), "light");
}

#[test]
fn volume_out_of_range_errors() {
    let mut s = SettingsService::new();
    assert_eq!(
        s.set("volume", "11").unwrap_err(),
        ServiceError::InvalidValue { key: "volume".into(), value: "11".into() }
    );
}

#[test]
fn non_numeric_volume_errors() {
    let mut s = SettingsService::new();
    assert!(matches!(s.set("volume", "loud").unwrap_err(), ServiceError::InvalidValue { .. }));
}

#[test]
fn unknown_key_errors() {
    let mut s = SettingsService::new();
    assert_eq!(s.set("brightness", "5").unwrap_err(), ServiceError::UnknownKey("brightness".into()));
}

#[test]
fn snapshot_contains_defaults() {
    let s = SettingsService::new();
    let snap = s.snapshot().unwrap();
    assert_eq!(snap.get("theme").map(String::as_str), Some("dark"));
    assert_eq!(snap.get("volume").map(String::as_str), Some("5"));
    assert_eq!(snap.get("units").map(String::as_str), Some("metric"));
}

#[test]
fn set_setting_command_produces_settings_state() {
    let mut s = SettingsService::new();
    let kind = EventKind::SetSetting { key: "volume".into(), value: "07".into() };
    let ev = handle_event(&mut s, &kind).unwrap().unwrap();
    assert_eq!(ev.source, ServiceId::Settings);
    match ev.kind {
        EventKind::SettingsState { key, value } => {
            assert_eq!(key, "volume");
            // The runner emits the normalized value ("07" -> "7").
            assert_eq!(value, "7");
        }
        other => panic!("unexpected event {other:?}"),
    }
}

#[test]
fn invalid_setting_command_produces_no_state() {
    let mut s = SettingsService::new();
    let kind = EventKind::SetSetting { key: "volume".into(), value: "999".into() };
    let out = handle_event(&mut s, &kind).unwrap();
    assert_eq!(
        out.unwrap_err(),
        ServiceError::InvalidValue { key: "volume".into(), value: "999".into() }
    );
    assert_eq!(s.get("volume").unwrap().as_deref(), Some("5"));
}

#[test]
fn volume_syntax_follows_u8_parsing() {
    assert_eq!(validate("volume", " +10 ").unwrap(), "10");
    assert_eq!(validate("volume", "0000").unwrap(), "0");
    assert_eq!(validate("volume", "\t3\n").unwrap(), "3");
    for bad in ["-1", "+", "", "1 0", "256", "3.0", "++3"] {
        assert_eq!(
            validate("volume", bad).unwrap_err(),
            ServiceError::InvalidValue { key: "volume".into(), value: bad.into() }
        );
    }
}

#[test]
fn theme_and_units_values() {
    assert_eq!(validate("theme", "  dark ").unwrap(), "dark");
    assert_eq!(validate("units", "imperial").unwrap(), "imperial");
    assert_eq!(validate("units", "metric").unwrap(), "metric");
    assert!(validate("theme", "Dark").is_err());
    assert!(validate("units", "furlongs").is_err());
    // Keys are compared exactly.
    assert_eq!(validate(" theme", "dark").unwrap_err(), ServiceError::UnknownKey(" theme".into()));
}

#[test]
fn normalized_values_are_accepted_unchanged() {
    for (key, value) in [("volume", "07"), ("volume", " 10"), ("theme", " light "), ("units", "metric\n")] {
        let normalized = validate(key, value).unwrap();
        assert_eq!(validate(key, &normalized).unwrap(), normalized);
    }
}

#[test]
fn defaults_are_the_known_settings() {
    let d = defaults();
    assert_eq!(d.len(), 3);
    for (key, value) in [("volume", "5"), ("theme", "dark"), ("units", "metric")] {
        assert_eq!(d.get(key).map(String::as_str), Some(value));
        assert_eq!(validate(key, value).unwrap(), value);
    }
    assert!(d.get("brightness").is_none());
}

#[test]
fn store_keeps_the_known_keys() {
    let mut s = SettingsService::new();
    s.set("theme", "light").unwrap();
    let _ = s.set("brightness", "9");
    assert_eq!(s.snapshot().unwrap().len(), 3);
    assert_eq!(s.get("brightness").unwrap(), None);
    assert_eq!(s.get("theme").unwrap().as_deref(), Some("light"));
}

#[test]
fn snapshot_map_inserts_and_replaces() {
    let mut m = SettingsSnapshot::new();
    assert_eq!(m.len(), 0);
    assert_eq!(m.insert("b".to_string(), "1".to_string()), None);
    assert_eq!(m.insert("a".to_string(), "2".to_string()), None);
    assert_eq!(m.insert("c".to_string(), "3".to_string()), None);
    assert_eq!(m.insert("b".to_string(), "4".to_string()), Some("1".to_string()));
    assert_eq!(m.len(), 3);
    assert_eq!(m.get("a").map(String::as_str), Some("2"));
    assert_eq!(m.get("b").map(String::as_str), Some("4"));
    assert_eq!(m.get("c").map(String::as_str), Some("3"));
    assert_eq!(m.get("d"), None);
    let copy = m.clone();
    assert_eq!(copy.get("b").map(String::as_str), Some("4"));
    assert_eq!(copy.len(), 3);
}

#[test]
fn settings_ignore_other_events() {
    let mut s = SettingsService::default();
    assert!(handle_event(&mut s, &EventKind::SettingsState { key: "volume".into(), value: "1".into() }).is_none());
    assert_eq!(s.get("volume").unwrap().as_deref(), Some("5"));
}

#[test]
fn snapshot_iterates_in_key_order() {
    let mut s = SettingsService::new();
    s.set("volume", "7").unwrap();
    let snap = s.snapshot().unwrap();
    let pairs: Vec<(&str, &str)> = snap.entries().iter().map(|(k, v)| (k.as_str(), v.as_str())).collect();
    assert_eq!(pairs, vec![("theme", "dark"), ("units", "metric"), ("volume", "7")]);

    let mut m = SettingsSnapshot::new();
    for (k, v) in [("zeta", "1"), ("Alpha", "2"), ("beta", "3"), ("alpha", "4"), ("beta", "5")] {
        m.insert(k.to_string(), v.to_string());
    }
    let keys: Vec<&str> = m.entries().iter().map(|(k, _)| k.as_str()).collect();
    assert_eq!(keys, vec!["Alpha", "alpha", "beta", "zeta"]);
    assert_eq!(m.entries()[2].1, "5");
}

#[test]
fn any_sets_keep_exactly_the_known_normalized_settings() {
    let mut s = SettingsService::new();
    let requests = [
        ("volume", " 009 "),
        ("brightness", "3"),
        ("theme", "LIGHT"),
        ("theme", "light"),
        ("volume", "11"),
        ("units", "imperial"),
        ("", ""),
    ];
    for (k, v) in requests {
        let _ = s.set(k, v);
    }
    let snap = s.snapshot().unwrap();
    let pairs: Vec<(String, String)> = snap.entries().to_vec();
    let keys: Vec<&str> = pairs.iter().map(|(k, _)| k.as_str()).collect();
    assert_eq!(keys, vec!["theme", "units", "volume"]);
    for (k, v) in &pairs {
        assert_eq!(validate(k, v), Ok(v.clone()));
    }
}
