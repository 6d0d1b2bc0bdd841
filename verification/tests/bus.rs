use dash::bus::{loop_exit_on, recv_result, Bus, RecvFailure, Subscription};
use dash::common::{CoreError, Event, EventKind, ServiceId};
use tokio::sync::broadcast::error::RecvError;

fn voice(cmd: &str) -> Event {
    Event::new(ServiceId::Voice, EventKind::VoiceCommand { transcript: cmd.to_string() })
}

/// Await the next event the way the service loops do.
fn recv(sub: &mut Subscription) -> Result<Event, CoreError> {
    let rt = tokio::runtime::Builder::new_current_thread().build().unwrap();
    let outcome = rt.block_on(sub.receiver().recv()).map_err(|e| match e {
        RecvError::Closed => RecvFailure::Closed,
        RecvError::Lagged(n) => RecvFailure::Lagged(n),
    });
    recv_result(outcome)
}

#[test]
fn subscriber_receives_published_event() {
    let bus = Bus::new();
    let mut sub = bus.subscribe();
    let delivered = bus.publish(voice("play music"));
    assert_eq!(delivered, 1);

    let got = recv(&mut sub).unwrap();
    assert_eq!(got.source, ServiceId::Voice);
    assert!(matches!(got.kind, EventKind::VoiceCommand { .. }));
}

#[test]
fn all_subscribers_get_every_event() {
    let bus = Bus::new();
    let mut a = bus.subscribe();
    let mut b = bus.subscribe();
    assert_eq!(bus.subscriber_count(), 2);

    let delivered = bus.publish(voice("pause"));
    assert_eq!(delivered, 2);

    assert!(recv(&mut a).is_ok());
    assert!(recv(&mut b).is_ok());
}

#[test]
fn publishing_with_no_subscribers_is_not_an_error() {
    let bus = Bus::new();
    assert_eq!(bus.publish(voice("hello")), 0);
}

#[test]
fn recv_reports_bus_closed_after_all_senders_dropped() {
    let bus = Bus::new();
    let mut sub = bus.subscribe();
    drop(bus); // last sender gone
    let err = recv(&mut sub).unwrap_err();
    assert!(matches!(err, CoreError::BusClosed));
}

#[test]
fn slow_subscriber_reports_lagged() {
    // Capacity 2: publish 3 without reading -> oldest is dropped.
    let bus = Bus::with_capacity(2);
    let mut sub = bus.subscribe();
    bus.publish(voice("one"));
    bus.publish(voice("two"));
    bus.publish(voice("three"));

    match recv(&mut sub) {
        Err(CoreError::Lagged(n)) => assert_eq!(n, 1),
        other => panic!("expected Lagged(1), got {other:?}"),
    }
    // After a lag, the subscription still yields the surviving events.
    assert!(recv(&mut sub).is_ok());
}

#[test]
fn clones_share_one_channel() {
    let bus = Bus::default();
    let other = bus.clone();
    let mut sub = other.subscribe();
    assert_eq!(bus.subscriber_count(), 1);
    assert_eq!(bus.publish(voice("next")), 1);
    let got = recv(&mut sub).unwrap();
    assert_eq!(got.kind, EventKind::VoiceCommand { transcript: "next".into() });
}

#[test]
fn dropping_a_subscription_unsubscribes() {
    let bus = Bus::new();
    let sub = bus.subscribe();
    assert_eq!(bus.subscriber_count(), 1);
    drop(sub);
    assert_eq!(bus.subscriber_count(), 0);
    assert_eq!(bus.publish(voice("skip")), 0);
}

#[test]
fn receive_outcomes_map_to_core_errors() {
    let ev = voice("play");
    assert_eq!(recv_result(Ok(ev.clone())), Ok(ev));
    assert_eq!(recv_result(Err(RecvFailure::Closed)), Err(CoreError::BusClosed));
    assert_eq!(recv_result(Err(RecvFailure::Lagged(4))), Err(CoreError::Lagged(4)));
}

#[test]
fn loops_stop_on_close_and_go_on_after_a_lag() {
    assert_eq!(loop_exit_on(CoreError::BusClosed), Some(Ok(())));
    assert_eq!(loop_exit_on(CoreError::Lagged(3)), None);
    let e = CoreError::Serialization("bad".into());
    assert_eq!(loop_exit_on(e.clone()), Some(Err(e)));
}

#[test]
fn capacity_is_rounded_up_to_a_power_of_two() {
    // Capacity 3 buffers 4: four unread events are all still there.
    let bus = Bus::with_capacity(3);
    let mut sub = bus.subscribe();
    for word in ["one", "two", "three", "four"] {
        bus.publish(voice(word));
    }
    for word in ["one", "two", "three", "four"] {
        let got = recv(&mut sub).unwrap();
        assert_eq!(got.kind, EventKind::VoiceCommand { transcript: word.into() });
    }
    // A fifth unread event pushes the oldest out.
    let bus = Bus::with_capacity(3);
    let mut sub = bus.subscribe();
    for word in ["one", "two", "three", "four", "five"] {
        bus.publish(voice(word));
    }
    assert_eq!(recv(&mut sub), Err(CoreError::Lagged(1)));
}
