use spotifatius::api::{ChangeEvent, Track, TrackChange, TrackStatus};
use spotifatius::dbus::{
    extract_track_id, listen_spotify_window, player_status, track_from_entries, BusInput,
    DBusClient, Entry, Property, Signal, SPOTIFY_DEST,
};

fn text(s: &str) -> Entry {
    Entry::Text(s.to_string())
}

fn list(items: &[&str]) -> Entry {
    Entry::List(items.iter().map(|s| Some(s.to_string())).collect())
}

fn metadata(id: &str, artist: &str, title: &str) -> Property {
    Property::Dict(vec![
        ("mpris:trackid".to_string(), text(id)),
        ("xesam:artist".to_string(), list(&[artist])),
        ("xesam:title".to_string(), text(title)),
    ])
}

fn status(s: &str) -> Property {
    Property::Text(s.to_string())
}

fn passive(playback_status: Option<Property>, metadata: Option<Property>) -> Signal {
    Signal { playback_status, metadata, is_update_request: false }
}

fn requested(playback_status: Option<Property>, metadata: Option<Property>) -> Signal {
    Signal { playback_status, metadata, is_update_request: true }
}

fn change(status: TrackStatus, id: &str, artist: &str, title: &str) -> TrackChange {
    TrackChange {
        status,
        track: Track {
            id: Some(id.to_string()),
            artist: Some(artist.to_string()),
            title: Some(title.to_string()),
            album: None,
        },
    }
}

#[test]
fn track_id_is_what_follows_the_last_colon() {
    assert_eq!(extract_track_id("spotify:track:4iV5W9uYEdYUVa79Axb7Rh"), "4iV5W9uYEdYUVa79Axb7Rh");
}

#[test]
fn track_id_is_what_follows_the_last_slash() {
    assert_eq!(extract_track_id("/com/spotify/track/4iV5W9uYEdYUVa79Axb7Rh"), "4iV5W9uYEdYUVa79Axb7Rh");
}

#[test]
fn track_id_without_delimiter_is_the_whole_text() {
    assert_eq!(extract_track_id("4iV5W9uYEdYUVa79Axb7Rh"), "4iV5W9uYEdYUVa79Axb7Rh");
}

#[test]
fn track_id_after_mixed_delimiters_is_the_last_segment() {
    assert_eq!(extract_track_id("spotify:track/abc"), "abc");
    assert_eq!(extract_track_id("spotify/track:abc"), "abc");
}

#[test]
fn track_id_behind_a_trailing_delimiter_is_empty() {
    assert_eq!(extract_track_id("spotify:track:"), "");
    assert_eq!(extract_track_id(""), "");
}

#[test]
fn player_status_knows_three_states() {
    assert_eq!(player_status("Playing"), TrackStatus::Playing);
    assert_eq!(player_status("PAUSED"), TrackStatus::Paused);
    assert_eq!(player_status("stopped"), TrackStatus::Stopped);
}

#[test]
fn player_status_defaults_to_stopped() {
    assert_eq!(player_status("Buffering"), TrackStatus::Stopped);
    assert_eq!(player_status(""), TrackStatus::Stopped);
    assert_eq!(player_status("added"), TrackStatus::Stopped);
    assert_eq!(player_status("removed"), TrackStatus::Stopped);
    assert_eq!(player_status("saved"), TrackStatus::Stopped);
}

#[test]
fn track_is_read_from_its_entries() {
    let entries = vec![
        ("xesam:album".to_string(), text("Album")),
        ("mpris:trackid".to_string(), text("spotify:track:t1")),
        ("xesam:artist".to_string(), list(&["A", "B"])),
        ("xesam:title".to_string(), text("T")),
        ("xesam:url".to_string(), text("https://example.org")),
    ];
    let track = track_from_entries(&entries);
    assert_eq!(
        track,
        Track {
            id: Some("t1".to_string()),
            artist: Some("A".to_string()),
            title: Some("T".to_string()),
            album: Some("Album".to_string()),
        }
    );
}

#[test]
fn empty_fields_count_as_missing() {
    let entries = vec![
        ("mpris:trackid".to_string(), text("")),
        ("xesam:artist".to_string(), list(&[""])),
        ("xesam:title".to_string(), text("")),
        ("xesam:album".to_string(), text("")),
    ];
    assert_eq!(track_from_entries(&entries), Track::empty());
    assert_eq!(track_from_entries(&Vec::new()), Track::empty());
}

#[test]
fn fields_of_another_type_count_as_missing() {
    let entries = vec![
        ("mpris:trackid".to_string(), Entry::Other),
        ("xesam:artist".to_string(), text("A")),
        ("xesam:title".to_string(), list(&["T"])),
        ("xesam:album".to_string(), Entry::Other),
    ];
    assert_eq!(track_from_entries(&entries), Track::empty());
}

#[test]
fn artist_list_with_a_foreign_item_counts_as_missing() {
    let entries = vec![(
        "xesam:artist".to_string(),
        Entry::List(vec![Some("A".to_string()), None]),
    )];
    assert_eq!(track_from_entries(&entries).artist, None);
    let empty = vec![("xesam:artist".to_string(), Entry::List(Vec::new()))];
    assert_eq!(track_from_entries(&empty).artist, None);
}

#[test]
fn first_entry_under_a_key_is_the_one_that_counts() {
    let entries = vec![
        ("xesam:title".to_string(), text("first")),
        ("xesam:title".to_string(), text("second")),
    ];
    assert_eq!(track_from_entries(&entries).title, Some("first".to_string()));
}

#[test]
fn first_announcement_is_passed_on() {
    let mut client = DBusClient::new();
    let event = client.listen_song_changes(&passive(
        Some(status("Playing")),
        Some(metadata("spotify:track:t1", "A", "T")),
    ));
    let expected = change(TrackStatus::Playing, "t1", "A", "T");
    assert_eq!(event, Some(ChangeEvent::TrackChange(expected.clone())));
    assert_eq!(client.last_change, Some(expected));
}

#[test]
fn repeated_announcements_collapse_into_one() {
    let mut client = DBusClient::new();
    let mut passed = 0;
    for _ in 0..4 {
        let event = client.listen_song_changes(&passive(
            Some(status("Playing")),
            Some(metadata("spotify:track:t1", "A", "T")),
        ));
        if event.is_some() {
            passed += 1;
        }
    }
    assert_eq!(passed, 1);
}

#[test]
fn changed_announcement_is_passed_on_again() {
    let mut client = DBusClient::new();
    let signals = [
        ("Playing", "t1"),
        ("Playing", "t1"),
        ("Paused", "t1"),
        ("Paused", "t1"),
        ("Paused", "t2"),
        ("Playing", "t1"),
    ];
    let mut seen = Vec::new();
    for (state, id) in signals {
        let event = client.listen_song_changes(&passive(
            Some(status(state)),
            Some(metadata(id, "A", "T")),
        ));
        if let Some(ChangeEvent::TrackChange(c)) = event {
            seen.push((c.status, c.track.id.unwrap()));
        }
    }
    assert_eq!(
        seen,
        vec![
            (TrackStatus::Playing, "t1".to_string()),
            (TrackStatus::Paused, "t1".to_string()),
            (TrackStatus::Paused, "t2".to_string()),
            (TrackStatus::Playing, "t1".to_string()),
        ]
    );
    for pair in seen.windows(2) {
        assert_ne!(pair[0], pair[1]);
    }
}

#[test]
fn answer_to_a_request_is_passed_on_even_if_unchanged() {
    let mut client = DBusClient::new();
    let first = client.listen_song_changes(&passive(
        Some(status("Playing")),
        Some(metadata("spotify:track:t1", "A", "T")),
    ));
    assert!(first.is_some());
    for _ in 0..3 {
        let again = client.listen_song_changes(&requested(
            Some(status("Playing")),
            Some(metadata("spotify:track:t1", "A", "T")),
        ));
        assert_eq!(again, Some(ChangeEvent::TrackChange(change(TrackStatus::Playing, "t1", "A", "T"))));
    }
    let passive_again = client.listen_song_changes(&passive(
        Some(status("Playing")),
        Some(metadata("spotify:track:t1", "A", "T")),
    ));
    assert_eq!(passive_again, None);
}

#[test]
fn status_alone_does_not_reset_the_track() {
    let mut client = DBusClient::new();
    client.listen_song_changes(&passive(
        Some(status("Playing")),
        Some(metadata("spotify:track:t1", "A", "T")),
    ));
    let event = client.listen_song_changes(&passive(Some(status("Paused")), None));
    assert_eq!(event, Some(ChangeEvent::TrackChange(change(TrackStatus::Paused, "t1", "A", "T"))));
}

#[test]
fn track_alone_does_not_reset_the_status() {
    let mut client = DBusClient::new();
    client.listen_song_changes(&passive(
        Some(status("Playing")),
        Some(metadata("spotify:track:t1", "A", "T")),
    ));
    let event = client.listen_song_changes(&passive(None, Some(metadata("spotify:track:t2", "B", "U"))));
    assert_eq!(event, Some(ChangeEvent::TrackChange(change(TrackStatus::Playing, "t2", "B", "U"))));
}

#[test]
fn announcement_that_carries_nothing_repeats_the_last_change() {
    let mut client = DBusClient::new();
    client.listen_song_changes(&passive(
        Some(status("Playing")),
        Some(metadata("spotify:track:t1", "A", "T")),
    ));
    assert_eq!(client.listen_song_changes(&passive(None, None)), None);
}

#[test]
fn partial_announcement_without_history_starts_from_nothing() {
    let mut client = DBusClient::new();
    let event = client.listen_song_changes(&passive(Some(status("Playing")), None));
    assert_eq!(
        event,
        Some(ChangeEvent::TrackChange(TrackChange {
            status: TrackStatus::Playing,
            track: Track::empty()
        }))
    );
    let mut other = DBusClient::new();
    let event = other.listen_song_changes(&passive(None, None));
    assert_eq!(
        event,
        Some(ChangeEvent::TrackChange(TrackChange {
            status: TrackStatus::Stopped,
            track: Track::empty()
        }))
    );
}

#[test]
fn answer_to_a_request_is_complete_by_itself() {
    let mut client = DBusClient::new();
    client.listen_song_changes(&passive(
        Some(status("Playing")),
        Some(metadata("spotify:track:t1", "A", "T")),
    ));
    let event = client.listen_song_changes(&requested(None, None));
    let nothing = TrackChange { status: TrackStatus::Stopped, track: Track::empty() };
    assert_eq!(event, Some(ChangeEvent::TrackChange(nothing.clone())));
    assert_eq!(client.last_change, Some(nothing));
}

#[test]
fn properties_of_another_type_read_as_nothing() {
    let mut client = DBusClient::new();
    let event = client.listen_song_changes(&passive(Some(Property::Other), Some(status("x"))));
    assert_eq!(
        event,
        Some(ChangeEvent::TrackChange(TrackChange {
            status: TrackStatus::Stopped,
            track: Track::empty()
        }))
    );
}

#[test]
fn unreadable_status_reads_as_stopped() {
    let mut client = DBusClient::new();
    let event = client.listen_song_changes(&passive(
        Some(status("Rewinding")),
        Some(metadata("spotify:track:t1", "A", "T")),
    ));
    assert_eq!(event, Some(ChangeEvent::TrackChange(change(TrackStatus::Stopped, "t1", "A", "T"))));
}

#[test]
fn player_name_is_the_mpris_name_of_spotify() {
    assert_eq!(SPOTIFY_DEST, "org.mpris.MediaPlayer2.spotify");
}

#[test]
fn other_bus_names_are_ignored() {
    assert!(listen_spotify_window("org.mpris.MediaPlayer2.vlc", Some(":1.42")).is_none());
    assert!(listen_spotify_window("", None).is_none());
}

#[test]
fn player_with_an_owner_has_opened() {
    let change = listen_spotify_window(SPOTIFY_DEST, Some(":1.42")).unwrap();
    assert_eq!(change.event, ChangeEvent::SpotifyOpened);
    assert!(!change.request_update);
}

#[test]
fn player_without_an_owner_has_closed() {
    let change = listen_spotify_window(SPOTIFY_DEST, Some("")).unwrap();
    assert_eq!(change.event, ChangeEvent::SpotifyClosed);
    assert!(change.request_update);
    let change = listen_spotify_window(SPOTIFY_DEST, None).unwrap();
    assert_eq!(change.event, ChangeEvent::SpotifyClosed);
    assert!(change.request_update);
}

#[test]
fn listen_takes_in_both_sources() {
    let mut client = DBusClient::new();
    let opened = client.listen(&BusInput::NameOwnerChanged {
        name: SPOTIFY_DEST.to_string(),
        new_owner: Some(":1.7".to_string()),
    });
    assert_eq!(opened.event, Some(ChangeEvent::SpotifyOpened));
    assert!(!opened.request_update);
    assert_eq!(client.last_change, None);

    let played = client.listen(&BusInput::Properties(passive(
        Some(status("Playing")),
        Some(metadata("spotify:track:t1", "A", "T")),
    )));
    assert_eq!(
        played.event,
        Some(ChangeEvent::TrackChange(change(TrackStatus::Playing, "t1", "A", "T")))
    );
    assert!(!played.request_update);

    let closed = client.listen(&BusInput::NameOwnerChanged {
        name: SPOTIFY_DEST.to_string(),
        new_owner: None,
    });
    assert_eq!(closed.event, Some(ChangeEvent::SpotifyClosed));
    assert!(closed.request_update);
    assert_eq!(client.last_change, Some(change(TrackStatus::Playing, "t1", "A", "T")));

    let foreign = client.listen(&BusInput::NameOwnerChanged {
        name: "org.example".to_string(),
        new_owner: None,
    });
    assert_eq!(foreign.event, None);
    assert!(!foreign.request_update);
}
