use dash::common::{Event, EventKind, MediaAction, ServiceId};
use dash::voice::v1::VoiceApi;
use dash::voice::service::interpret;
use dash::voice::{handle_event, parse_intent, Intent, ServiceError, VoiceService};

#[test]
fn parses_media_commands() {
    let v = VoiceService::new();
    assert_eq!(v.parse("play music").unwrap(), Intent::Media(MediaAction::Play));
    assert_eq!(v.parse("pause").unwrap(), Intent::Media(MediaAction::Pause));
    assert_eq!(v.parse("stop the music").unwrap(), Intent::Media(MediaAction::Pause));
    assert_eq!(v.parse("next track").unwrap(), Intent::Media(MediaAction::Next));
    assert_eq!(v.parse("skip").unwrap(), Intent::Media(MediaAction::Next));
}

#[test]
fn parses_navigation() {
    assert_eq!(
        parse_intent("navigate to Pier 39"),
        Some(Intent::Navigate { destination: "Pier 39".into() })
    );
    assert_eq!(
        parse_intent("take me to the airport"),
        Some(Intent::Navigate { destination: "the airport".into() })
    );
    assert_eq!(
        parse_intent("go home"),
        Some(Intent::Navigate { destination: "Home".into() })
    );
}

#[test]
fn parses_settings() {
    assert_eq!(
        parse_intent("set volume to 7"),
        Some(Intent::Setting { key: "volume".into(), value: "7".into() })
    );
    assert_eq!(
        parse_intent("set theme to dark"),
        Some(Intent::Setting { key: "theme".into(), value: "dark".into() })
    );
    assert_eq!(
        parse_intent("mute"),
        Some(Intent::Setting { key: "volume".into(), value: "0".into() })
    );
}

#[test]
fn unrecognized_transcript_errors() {
    let v = VoiceService::new();
    let err = v.parse("what is the meaning of life").unwrap_err();
    assert_eq!(err, ServiceError::Unrecognized("what is the meaning of life".into()));
}

#[test]
fn navigate_beats_broad_play_match() {
    // "playhouse" contains "play" but this is clearly navigation.
    assert_eq!(
        parse_intent("navigate to the playhouse"),
        Some(Intent::Navigate { destination: "the playhouse".into() })
    );
}

#[test]
fn transcript_becomes_media_control_on_bus() {
    let voice = VoiceService::new();
    let incoming = Event::new(
        ServiceId::Gateway,
        EventKind::VoiceCommand { transcript: "play music".into() },
    );
    let published = handle_event(&voice, &incoming.kind)
        .expect("a voice command is handled")
        .expect("the transcript is recognized");
    assert_eq!(published.source, ServiceId::Voice);
    assert_eq!(published.kind, EventKind::MediaControl { action: MediaAction::Play });
}

#[test]
fn unrecognized_transcript_produces_no_command() {
    let voice = VoiceService::new();
    let incoming = EventKind::VoiceCommand { transcript: "hello there".into() };
    match handle_event(&voice, &incoming) {
        Some(Err(ServiceError::Unrecognized(t))) => assert_eq!(t, "hello there"),
        other => panic!("unexpected outcome: {other:?}"),
    }
}

#[test]
fn voice_ignores_other_events() {
    let voice = VoiceService::new();
    assert!(handle_event(&voice, &EventKind::MediaControl { action: MediaAction::Play }).is_none());
    assert!(handle_event(&voice, &EventKind::NavState { destination: None }).is_none());
}

#[test]
fn transcripts_are_trimmed_and_lowercased() {
    assert_eq!(parse_intent("  PAUSE  "), Some(Intent::Media(MediaAction::Pause)));
    assert_eq!(parse_intent("Play Some Music"), Some(Intent::Media(MediaAction::Play)));
    // The destination keeps the casing of the transcript.
    assert_eq!(
        parse_intent("\u{3000}Drive To Golden Gate Park\t"),
        Some(Intent::Navigate { destination: "Golden Gate Park".into() })
    );
}

#[test]
fn keyword_priority_order() {
    // Pause wins over play, next over navigation.
    assert_eq!(parse_intent("stop playing"), Some(Intent::Media(MediaAction::Pause)));
    assert_eq!(parse_intent("navigate to the next exit"), Some(Intent::Media(MediaAction::Next)));
    // A navigation verb with "home" goes home, whatever follows.
    assert_eq!(
        parse_intent("drive me home please"),
        Some(Intent::Navigate { destination: "Home".into() })
    );
    // The transcript is trimmed first, so "navigate to " no longer occurs and
    // the bare "navigate " prefix names the destination "to".
    assert_eq!(parse_intent("navigate to   "), Some(Intent::Navigate { destination: "to".into() }));
    // A prefix with nothing after it names no destination.
    assert_eq!(parse_intent("please navigate "), None);
    assert_eq!(parse_intent("navigate Main Street"), Some(Intent::Navigate { destination: "Main Street".into() }));
}

#[test]
fn settings_grammar_edges() {
    // Key and value come from the lowercased text and are trimmed.
    assert_eq!(
        parse_intent("Set  Units  to  Imperial "),
        Some(Intent::Setting { key: "units".into(), value: "imperial".into() })
    );
    // The first " to " splits key from value.
    assert_eq!(
        parse_intent("set a to b to c"),
        Some(Intent::Setting { key: "a".into(), value: "b to c".into() })
    );
    // A blank value is not a setting; with nothing else matching, no intent.
    assert_eq!(parse_intent("set volume to "), None);
    // Mute is heard anywhere in the text.
    assert_eq!(
        parse_intent("please mute the radio"),
        Some(Intent::Setting { key: "volume".into(), value: "0".into() })
    );
    assert_eq!(parse_intent(""), None);
}

#[test]
fn intents_become_owned_commands() {
    let ev = Intent::Navigate { destination: "Pier 39".into() }.into_event();
    assert_eq!(ev.source, ServiceId::Voice);
    assert_eq!(ev.kind, EventKind::SetDestination { destination: "Pier 39".into() });
    let ev = Intent::Setting { key: "theme".into(), value: "light".into() }.into_event();
    assert_eq!(ev.kind, EventKind::SetSetting { key: "theme".into(), value: "light".into() });
    let ev = Intent::Media(MediaAction::Next).into_event();
    assert_eq!(ev.kind, EventKind::MediaControl { action: MediaAction::Next });
}

#[test]
fn grammar_reads_the_given_lowercase() {
    // The grammar looks for keywords in the lowercase it is given and takes
    // destinations from the text itself.
    assert_eq!(
        interpret("Drive To Oakland", "drive to oakland"),
        Some(Intent::Navigate { destination: "Oakland".into() })
    );
    assert_eq!(interpret("PLAY", "PLAY"), None);
    assert_eq!(interpret("PLAY", "play"), Some(Intent::Media(MediaAction::Play)));
}

#[test]
fn parsed_texts_are_trimmed_and_not_blank() {
    assert_eq!(
        parse_intent("\t Navigate to   Main St \n"),
        Some(Intent::Navigate { destination: "Main St".into() })
    );
    assert_eq!(
        parse_intent("SET  Volume \u{3000} to  3 "),
        Some(Intent::Setting { key: "volume".into(), value: "3".into() })
    );
    assert_eq!(parse_intent("set  to 3"), None);
    assert_eq!(parse_intent("drive to    "), None);
}

#[test]
fn whitespace_padding_never_changes_meaning() {
    for t in ["play music", "Navigate to Main St", "set volume to 3", "mute", "hello", ""] {
        let padded = format!(" \t\u{2003}{t}\n\u{3000} ");
        assert_eq!(parse_intent(&padded), parse_intent(t));
    }
}

#[test]
fn parsed_settings_are_lowercase() {
    match parse_intent("SET Theme TO Dark") {
        Some(Intent::Setting { key, value }) => {
            assert_eq!((key.as_str(), value.as_str()), ("theme", "dark"));
            assert!(!key.chars().chain(value.chars()).any(|c| c.is_ascii_uppercase()));
        }
        other => panic!("expected a setting, got {other:?}"),
    }
}

#[test]
fn parsed_settings_are_lowercase_beyond_ascii() {
    // U+212A KELVIN SIGN lowercases to an ASCII `k`; `È` to `è`.
    match parse_intent("SET \u{212A}EY THÈME TO DARK") {
        Some(Intent::Setting { key, value }) => {
            assert_eq!((key.as_str(), value.as_str()), ("key thème", "dark"));
            assert!(!key.chars().chain(value.chars()).any(|c| c.is_ascii_uppercase()));
        }
        other => panic!("expected a setting, got {other:?}"),
    }
}
