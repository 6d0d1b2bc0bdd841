use dash::common::{CoreError, Event, EventKind, MediaAction, ServiceId};

#[test]
fn service_names_are_stable() {
    assert_eq!(ServiceId::Nav.as_str(), "nav");
    assert_eq!(ServiceId::Media.as_str(), "media");
    assert_eq!(ServiceId::Voice.as_str(), "voice");
    assert_eq!(ServiceId::Settings.as_str(), "settings");
    assert_eq!(ServiceId::Gateway.as_str(), "gateway");
}

#[test]
fn new_events_carry_source_and_payload() {
    let kind = EventKind::MediaControl { action: MediaAction::Pause };
    let a = Event::new(ServiceId::Voice, kind.clone());
    let b = Event::new(ServiceId::Voice, kind.clone());
    assert_eq!(a.source, ServiceId::Voice);
    assert_eq!(a.kind, kind);
    // Every event gets its own id.
    assert_ne!(a.id, b.id);
    assert!(a.ts_millis > 0);
}

#[test]
fn json_errors_become_serialization_errors() {
    let err = serde_json::from_str::<u8>("not json").unwrap_err();
    let core: CoreError = err.into();
    assert!(matches!(core, CoreError::Serialization(ref m) if !m.is_empty()));
}

#[test]
fn json_error_message_is_serde_json_text() {
    let err = serde_json::from_str::<u8>("not json").unwrap_err();
    let text = err.to_string();
    assert!(!err.is_io());
    let core: CoreError = err.into();
    assert_eq!(core, CoreError::Serialization(text));
    assert_eq!(
        CoreError::from(serde_json::from_str::<u8>("[").unwrap_err()),
        CoreError::Serialization("invalid type: sequence, expected u8 at line 1 column 0".into())
    );
}
