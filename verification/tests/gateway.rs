use dash::common::{CoreError, Event, EventKind, MediaAction, ServiceId};
use dash::gateway::{inbound_step, outbound_step, ClientCommand, ClientFrame, Inbound, Outbound, ServerEvent};
use dash::media::MediaService;
use dash::voice::VoiceService;

#[test]
fn voice_command_maps_to_voice_event() {
    let ev = ClientCommand::Voice { transcript: "pause".into() }.into_event();
    assert_eq!(ev.source, ServiceId::Gateway);
    assert_eq!(ev.kind, EventKind::VoiceCommand { transcript: "pause".into() });
}

#[test]
fn client_commands_map_to_owned_commands() {
    let ev = ClientCommand::SetDestination { destination: "Pier 39".into() }.into_event();
    assert_eq!(ev.kind, EventKind::SetDestination { destination: "Pier 39".into() });
    let ev = ClientCommand::SetSetting { key: "volume".into(), value: "7".into() }.into_event();
    assert_eq!(ev.source, ServiceId::Gateway);
    assert_eq!(ev.kind, EventKind::SetSetting { key: "volume".into(), value: "7".into() });
}

#[test]
fn server_event_keeps_envelope_and_payload() {
    let event = Event::new(
        ServiceId::Media,
        EventKind::MediaState { playing: true, track: Some("Highway Star".into()) },
    );
    let se = ServerEvent::from(event.clone());
    assert_eq!(se.source, ServiceId::Media);
    assert_eq!(se.ts_millis, event.ts_millis);
    assert_eq!(se.kind, event.kind);
}

/// The flow of the README: the client taps "play", voice turns the
/// transcript into a media command, media plays, and the client gets the
/// resulting media state.
#[test]
fn client_voice_command_flows_through_to_media_state() {
    let voice = VoiceService::new();
    let mut media = MediaService::with_demo_tracks();

    let published = match inbound_step(ClientFrame::Command(ClientCommand::Voice {
        transcript: "play music".into(),
    })) {
        Inbound::Publish(ev) => ev,
        _ => panic!("a client command is published"),
    };
    let command = dash::voice::handle_event(&voice, &published.kind).unwrap().unwrap();
    assert_eq!(command.kind, EventKind::MediaControl { action: MediaAction::Play });
    let state = dash::media::handle_event(&mut media, &command.kind).unwrap().unwrap();
    let frame = match outbound_step(Ok(state)) {
        Outbound::Forward(se) => se,
        _ => panic!("a bus event is forwarded"),
    };
    assert_eq!(frame.source, ServiceId::Media);
    assert_eq!(
        frame.kind,
        EventKind::MediaState { playing: true, track: Some("Highway Star".into()) }
    );
}

#[test]
fn malformed_client_message_does_not_kill_the_connection() {
    assert!(matches!(inbound_step(ClientFrame::Malformed), Inbound::Ignore));
    // A valid command right after still works.
    match inbound_step(ClientFrame::Command(ClientCommand::Voice { transcript: "play".into() })) {
        Inbound::Publish(ev) => {
            assert_eq!(ev.kind, EventKind::VoiceCommand { transcript: "play".into() })
        }
        _ => panic!("command not published"),
    }
}

#[test]
fn close_ends_and_other_frames_are_ignored() {
    assert!(matches!(inbound_step(ClientFrame::Close), Inbound::Stop));
    assert!(matches!(inbound_step(ClientFrame::Other), Inbound::Ignore));
}

#[test]
fn lagging_client_skips_and_closed_bus_stops() {
    assert!(matches!(outbound_step(Err(CoreError::Lagged(7))), Outbound::Skip(7)));
    assert!(matches!(outbound_step(Err(CoreError::BusClosed)), Outbound::Stop));
}
