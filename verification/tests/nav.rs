use dash::common::{EventKind, ServiceId};
use dash::nav::v1::NavApi;
use dash::nav::{handle_event, NavService, NavStatus, ServiceError};

#[test]
fn set_destination_updates_state() {
    let mut nav = NavService::new();
    let status = nav.set_destination("Pier 39").unwrap();
    assert_eq!(status.destination.as_deref(), Some("Pier 39"));
    // And it persists for a subsequent read.
    assert_eq!(nav.current().unwrap().destination.as_deref(), Some("Pier 39"));
}

#[test]
fn set_destination_trims_whitespace() {
    let mut nav = NavService::new();
    let status = nav.set_destination("  Home  ").unwrap();
    assert_eq!(status.destination.as_deref(), Some("Home"));
}

#[test]
fn blank_destination_errors() {
    let mut nav = NavService::new();
    assert_eq!(nav.set_destination("   ").unwrap_err(), ServiceError::EmptyDestination);
}

#[test]
fn clear_returns_to_idle() {
    let mut nav = NavService::new();
    nav.set_destination("Airport").unwrap();
    let status = nav.clear().unwrap();
    assert!(status.destination.is_none());
}

#[test]
fn current_starts_idle() {
    let nav = NavService::new();
    assert!(nav.current().unwrap().destination.is_none());
}

#[test]
fn set_destination_command_produces_nav_state() {
    let mut nav = NavService::new();
    let kind = EventKind::SetDestination { destination: "Pier 39".into() };
    let ev = handle_event(&mut nav, &kind).unwrap().unwrap();
    assert_eq!(ev.source, ServiceId::Nav);
    match ev.kind {
        EventKind::NavState { destination } => assert_eq!(destination.as_deref(), Some("Pier 39")),
        other => panic!("unexpected event {other:?}"),
    }
}

#[test]
fn blank_destination_command_produces_no_state() {
    let mut nav = NavService::new();
    let kind = EventKind::SetDestination { destination: "   ".into() };
    let out = handle_event(&mut nav, &kind).unwrap();
    assert_eq!(out.unwrap_err(), ServiceError::EmptyDestination);
    assert!(nav.current().unwrap().destination.is_none());
}

#[test]
fn rejected_destination_keeps_the_previous_one() {
    let mut nav = NavService::new();
    nav.set_destination("Airport").unwrap();
    assert!(nav.set_destination("\t\n").is_err());
    assert_eq!(nav.current().unwrap().destination.as_deref(), Some("Airport"));
}

#[test]
fn resubmitting_the_reported_destination_is_stable() {
    let mut nav = NavService::new();
    let first = nav.set_destination("\u{a0} Pier 39 \u{2003}").unwrap();
    let reported = first.destination.clone().unwrap();
    assert_eq!(reported, "Pier 39");
    let second = nav.set_destination(&reported).unwrap();
    assert_eq!(first, second);
}

#[test]
fn nav_ignores_other_events() {
    let mut nav = NavService::new();
    assert!(handle_event(&mut nav, &EventKind::VoiceCommand { transcript: "go to x".into() }).is_none());
    assert!(nav.current().unwrap().destination.is_none());
}

#[test]
fn idle_status_has_no_destination() {
    assert_eq!(NavStatus::idle(), NavStatus { destination: None });
}
