use spoke_voice::roster::{DispatchOutcome, ParticipantRoster, RoomEvent};

fn names(out: DispatchOutcome) -> Vec<String> {
    match out {
        DispatchOutcome::Participants(ns) => ns,
        other => panic!("expected a participants snapshot, got {:?}", other),
    }
}

#[test]
fn recomputation_emits_snapshots_in_order() {
    // Event stream [Connected("bob"), Connected("ana"), Disconnected("bob")]
    // emits ["bob"], ["bob","ana"], ["ana"] in that order.
    let mut roster = ParticipantRoster::new();
    let first = names(roster.dispatch(RoomEvent::ParticipantConnected { name: "bob".to_string() }));
    assert_eq!(first, vec!["bob".to_string()]);
    let second = names(roster.dispatch(RoomEvent::ParticipantConnected { name: "ana".to_string() }));
    assert_eq!(second, vec!["bob".to_string(), "ana".to_string()]);
    let third =
        names(roster.dispatch(RoomEvent::ParticipantDisconnected { name: "bob".to_string() }));
    assert_eq!(third, vec!["ana".to_string()]);
}

#[test]
fn duplicate_connect_is_not_listed_twice() {
    let mut roster = ParticipantRoster::new();
    roster.note_connected("bob".to_string());
    roster.note_connected("bob".to_string());
    assert_eq!(roster.snapshot(), vec!["bob".to_string()]);
}

#[test]
fn disconnect_of_unknown_name_changes_nothing() {
    let mut roster = ParticipantRoster::new();
    roster.note_connected("ana".to_string());
    roster.note_disconnected(&"bob".to_string());
    assert_eq!(roster.snapshot(), vec!["ana".to_string()]);
}

#[test]
fn audio_track_subscription_asks_for_a_relay() {
    let mut roster = ParticipantRoster::new();
    let out = roster.dispatch(RoomEvent::TrackSubscribed { audio: true });
    assert!(matches!(out, DispatchOutcome::SpawnRelay));
    assert!(roster.snapshot().is_empty());
}

#[test]
fn non_audio_tracks_and_other_events_are_ignored() {
    let mut roster = ParticipantRoster::new();
    assert!(matches!(
        roster.dispatch(RoomEvent::TrackSubscribed { audio: false }),
        DispatchOutcome::Ignore
    ));
    assert!(matches!(roster.dispatch(RoomEvent::Other), DispatchOutcome::Ignore));
    assert!(roster.snapshot().is_empty());
}
