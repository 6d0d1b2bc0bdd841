use dash::common::{CoreError, Event, EventKind, MediaAction, ServiceId};
use dash::media::v1::MediaApi;
use dash::media::{handle_event, MediaService, PlaybackState, ServiceError, Track};

fn demo() -> MediaService {
    MediaService::with_demo_tracks()
}

fn control(action: MediaAction) -> Event {
    Event::new(ServiceId::Voice, EventKind::MediaControl { action })
}

#[test]
fn play_starts_playback_on_first_track() {
    let mut svc = demo();
    let state = svc.play().unwrap();
    assert!(state.playing);
    assert_eq!(state.current.unwrap().title, "Highway Star");
}

#[test]
fn pause_stops_playback() {
    let mut svc = demo();
    svc.play().unwrap();
    let state = svc.pause().unwrap();
    assert!(!state.playing);
}

#[test]
fn next_track_advances_and_wraps() {
    let mut svc = demo(); // 3 tracks
    assert_eq!(svc.next_track().unwrap().current.unwrap().title, "Radar Love");
    assert_eq!(svc.next_track().unwrap().current.unwrap().title, "Life Is a Highway");
    // Wrap back to the first track.
    assert_eq!(svc.next_track().unwrap().current.unwrap().title, "Highway Star");
}

#[test]
fn select_track_picks_the_requested_index() {
    let mut svc = demo();
    let state = svc.select_track(2).unwrap();
    assert_eq!(state.current.unwrap().title, "Life Is a Highway");
}

#[test]
fn select_track_out_of_range_errors() {
    let mut svc = demo();
    let err = svc.select_track(9).unwrap_err();
    assert_eq!(err, ServiceError::TrackOutOfRange { index: 9, len: 3 });
}

#[test]
fn play_on_empty_playlist_errors() {
    let mut svc = MediaService::new(vec![]);
    assert_eq!(svc.play().unwrap_err(), ServiceError::EmptyPlaylist);
}

#[test]
fn next_track_on_empty_playlist_errors() {
    let mut svc = MediaService::new(vec![]);
    assert_eq!(svc.next_track().unwrap_err(), ServiceError::EmptyPlaylist);
}

#[test]
fn pause_on_empty_playlist_is_ok() {
    let mut svc = MediaService::new(vec![]);
    let state = svc.pause().unwrap();
    assert!(!state.playing);
    assert!(state.current.is_none());
}

#[test]
fn media_control_play_produces_media_state_on_bus() {
    let mut svc = demo();
    let ev = handle_event(&mut svc, &control(MediaAction::Play).kind).unwrap().unwrap();
    assert_eq!(ev.source, ServiceId::Media);
    match ev.kind {
        EventKind::MediaState { playing, track } => {
            assert_eq!((playing, track), (true, Some("Highway Star".to_string())))
        }
        other => panic!("unexpected event {other:?}"),
    }
}

#[test]
fn non_media_events_are_ignored() {
    let mut svc = demo();
    // A voice command is not a media control command; media must ignore it.
    let voice = EventKind::VoiceCommand { transcript: "play music".into() };
    assert!(handle_event(&mut svc, &voice).is_none());
    // The only MediaState media emits comes from the Pause.
    let ev = handle_event(&mut svc, &control(MediaAction::Pause).kind).unwrap().unwrap();
    match ev.kind {
        EventKind::MediaState { playing, .. } => assert!(!playing),
        other => panic!("unexpected event {other:?}"),
    }
}

#[test]
fn media_errors_are_reported_by_the_loop() {
    let mut svc = MediaService::new(vec![]);
    let out = handle_event(&mut svc, &EventKind::MediaControl { action: MediaAction::Next });
    assert_eq!(out.unwrap().unwrap_err(), ServiceError::EmptyPlaylist);
}

#[test]
fn pausing_twice_equals_pausing_once() {
    let mut svc = demo();
    svc.play().unwrap();
    let once = svc.pause().unwrap();
    let twice = svc.pause().unwrap();
    assert_eq!(once, twice);
}

#[test]
fn skipping_a_whole_playlist_comes_back() {
    let mut svc = demo();
    svc.select_track(1).unwrap();
    let start = svc.now_playing().unwrap();
    for _ in 0..3 {
        svc.next_track().unwrap();
    }
    assert_eq!(svc.now_playing().unwrap(), start);
}

#[test]
fn failed_calls_leave_the_state() {
    let mut svc = demo();
    svc.select_track(1).unwrap();
    let before = svc.now_playing().unwrap();
    assert!(svc.select_track(3).is_err());
    assert_eq!(svc.now_playing().unwrap(), before);
}

#[test]
fn next_keeps_playing_and_select_keeps_paused() {
    let mut svc = demo();
    svc.play().unwrap();
    assert!(svc.next_track().unwrap().playing);
    svc.pause().unwrap();
    assert!(!svc.select_track(0).unwrap().playing);
}

#[test]
fn current_title_of_states() {
    let s = PlaybackState { playing: false, current: Some(Track::new("Radar Love", "Golden Earring")) };
    assert_eq!(s.current_title(), Some("Radar Love".to_string()));
    assert_eq!(s.current.as_ref().unwrap().artist, "Golden Earring");
    let empty = PlaybackState { playing: false, current: None };
    assert_eq!(empty.current_title(), None);
}

/// Drive the media loop's decisions over a run of receives, as the bus loop
/// does: publish what is announced, skip lags, stop on the first other failure.
fn drive(
    svc: &mut MediaService,
    received: Vec<Result<Event, CoreError>>,
) -> (Vec<EventKind>, Option<Result<(), CoreError>>) {
    let mut published = Vec::new();
    for r in received {
        match r {
            Ok(ev) => {
                if let Some(Ok(announced)) = handle_event(svc, &ev.kind) {
                    assert_eq!(announced.source, ServiceId::Media);
                    published.push(announced.kind);
                }
            }
            Err(e) => {
                if let Some(done) = dash::bus::loop_exit_on(e) {
                    return (published, Some(done));
                }
            }
        }
    }
    (published, None)
}

#[test]
fn media_loop_runs_until_the_bus_closes() {
    let mut svc = demo();
    let received = vec![
        Ok(control(MediaAction::Play)),
        Err(CoreError::Lagged(2)),
        Ok(Event::new(ServiceId::Voice, EventKind::VoiceCommand { transcript: "x".into() })),
        Ok(control(MediaAction::Next)),
        Ok(control(MediaAction::Pause)),
        Err(CoreError::BusClosed),
        Ok(control(MediaAction::Play)),
    ];
    let (published, outcome) = drive(&mut svc, received);
    assert_eq!(outcome, Some(Ok(())));
    assert_eq!(
        published,
        vec![
            EventKind::MediaState { playing: true, track: Some("Highway Star".into()) },
            EventKind::MediaState { playing: true, track: Some("Radar Love".into()) },
            EventKind::MediaState { playing: false, track: Some("Radar Love".into()) },
        ]
    );

    // An empty playlist fails every command: nothing is published.
    let mut empty = MediaService::new(Vec::new());
    let (published, outcome) =
        drive(&mut empty, vec![Ok(control(MediaAction::Play)), Err(CoreError::BusClosed)]);
    assert!(published.is_empty());
    assert_eq!(outcome, Some(Ok(())));

    // Any other receive failure stops the loop before the next event.
    let mut svc = demo();
    let bad = CoreError::Serialization("bad".into());
    let (published, outcome) = drive(
        &mut svc,
        vec![Err(bad.clone()), Ok(control(MediaAction::Play)), Err(CoreError::BusClosed)],
    );
    assert!(published.is_empty());
    assert_eq!(outcome, Some(Err(bad)));
}
