use spotifatius::api::{ChangeEvent, MonitorResponse, Track, TrackChange, TrackStatus};
use spotifatius::service::{
    relay_retry_delay, Exit, LoopInput, Reaction, Service, Stop, Task, TimerAction,
    ADDRESS_IN_USE, FALLBACK_PERIOD_SECS, OPENED_RESYNC_MILLIS, RELAY_CONNECT_ATTEMPTS,
    RELAY_FIRST_DELAY_MILLIS, TOGGLED_RESYNC_MILLIS,
};
use spotifatius::tracker::{Outcome, RemoteCall, Reply};

fn track(id: Option<&str>, artist: Option<&str>, title: Option<&str>) -> Track {
    Track {
        id: id.map(|s| s.to_string()),
        artist: artist.map(|s| s.to_string()),
        title: title.map(|s| s.to_string()),
        album: None,
    }
}

fn changed(status: TrackStatus, track: Track) -> LoopInput {
    LoopInput::Event(ChangeEvent::TrackChange(TrackChange { status, track }))
}

fn stopped() -> MonitorResponse {
    MonitorResponse { track: None, status: TrackStatus::Stopped, is_liked: None }
}

fn assert_idle_but(reaction: &Reaction, publish: Option<MonitorResponse>, timer: TimerAction) {
    assert_eq!(reaction.publish, publish);
    assert_eq!(reaction.timer, timer);
    assert!(!reaction.request_update);
    assert!(reaction.follow_up.is_none());
    assert_eq!(reaction.stop, None);
}

#[test]
fn timings_are_as_documented() {
    assert_eq!(OPENED_RESYNC_MILLIS, 500);
    assert_eq!(TOGGLED_RESYNC_MILLIS, 2000);
    assert_eq!(FALLBACK_PERIOD_SECS, 3600);
    assert_eq!(ADDRESS_IN_USE, "(os error 98)");
}

#[test]
fn opening_then_a_liked_track_publishes_twice() {
    let mut service = Service::new();
    let opened = service.monitor(LoopInput::Event(ChangeEvent::SpotifyOpened));
    assert_idle_but(&opened, None, TimerAction::Arm(500));

    let t1 = track(Some("t1"), Some("A"), Some("T"));
    let reaction = service.monitor(changed(TrackStatus::Playing, t1.clone()));
    assert_eq!(
        reaction.publish,
        Some(MonitorResponse { track: Some(t1.clone()), status: TrackStatus::Playing, is_liked: None })
    );
    assert_eq!(reaction.timer, TimerAction::Reset);
    assert!(!reaction.request_update);
    assert_eq!(reaction.stop, None);
    let follow_up = reaction.follow_up.expect("the library is to be asked");
    assert!(!follow_up.pending.toggle);
    assert!(matches!(&follow_up.pending.call, RemoteCall::Contains(id) if id == "t1"));

    let second = service.checked(follow_up, Reply::Membership(true));
    assert_eq!(
        second,
        Some(MonitorResponse { track: Some(t1), status: TrackStatus::Playing, is_liked: Some(true) })
    );
    assert_eq!(service.liked_tracker.is_liked_cached(&"t1".to_string()), Some(true));
}

#[test]
fn opening_then_an_unliked_track_publishes_once() {
    let mut service = Service::new();
    service.monitor(LoopInput::Event(ChangeEvent::SpotifyOpened));
    let t1 = track(Some("t1"), Some("A"), Some("T"));
    let reaction = service.monitor(changed(TrackStatus::Playing, t1));
    let follow_up = reaction.follow_up.expect("the library is to be asked");
    assert_eq!(service.checked(follow_up, Reply::Membership(false)), None);
    assert_eq!(service.liked_tracker.is_liked_cached(&"t1".to_string()), Some(false));
}

#[test]
fn known_track_is_published_with_what_is_known() {
    let mut service = Service::new();
    service.liked_tracker.tracker.tracks.add("t1".to_string(), true);
    service.liked_tracker.tracker.tracks.add("t2".to_string(), false);
    for (id, liked) in [("t1", true), ("t2", false)] {
        let t = track(Some(id), Some("A"), Some("T"));
        let reaction = service.monitor(changed(TrackStatus::Paused, t.clone()));
        assert_idle_but(
            &reaction,
            Some(MonitorResponse { track: Some(t), status: TrackStatus::Paused, is_liked: Some(liked) }),
            TimerAction::Reset,
        );
    }
}

#[test]
fn track_change_moves_every_cursor() {
    let mut service = Service::new();
    service.monitor(changed(TrackStatus::Playing, track(Some("t1"), None, None)));
    assert_eq!(service.liked_tracker.tracker.current_track_id, Some("t1".to_string()));
    assert_eq!(service.play_pause_tracker.current_track_id, Some("t1".to_string()));
    service.monitor(changed(TrackStatus::Playing, track(Some("t2"), None, None)));
    assert_eq!(service.liked_tracker.tracker.current_track_id, Some("t2".to_string()));
    assert_eq!(service.play_pause_tracker.current_track_id, Some("t2".to_string()));
}

#[test]
fn timer_is_left_alone_until_artist_and_title_are_there() {
    let mut service = Service::new();
    for (artist, title) in [(None, None), (Some("A"), None), (None, Some("T"))] {
        let reaction = service.monitor(changed(TrackStatus::Playing, track(Some("t1"), artist, title)));
        assert_eq!(reaction.timer, TimerAction::Keep);
    }
    let reaction = service.monitor(changed(TrackStatus::Playing, track(Some("t1"), Some("A"), Some("T"))));
    assert_eq!(reaction.timer, TimerAction::Reset);
}

#[test]
fn track_change_without_id_publishes_stopped() {
    let mut service = Service::new();
    service.liked_tracker.tracker.tracks.add("t1".to_string(), true);
    service.monitor(changed(TrackStatus::Playing, track(Some("t1"), Some("A"), Some("T"))));
    let reaction = service.monitor(changed(TrackStatus::Playing, track(None, Some("A"), Some("T"))));
    assert_idle_but(&reaction, Some(stopped()), TimerAction::Keep);
    assert_eq!(service.liked_tracker.tracker.current_track_id, None);
    assert_eq!(service.play_pause_tracker.current_track_id, None);
    assert_eq!(service.liked_tracker.is_liked_cached(&"t1".to_string()), Some(true));

    let mut fresh = Service::new();
    let reaction = fresh.monitor(changed(TrackStatus::Paused, Track::empty()));
    assert_idle_but(&reaction, Some(stopped()), TimerAction::Keep);
}

#[test]
fn closing_clears_the_cursor_and_publishes_stopped() {
    let mut service = Service::new();
    service.monitor(changed(TrackStatus::Playing, track(Some("t1"), Some("A"), Some("T"))));
    let reaction = service.monitor(LoopInput::Event(ChangeEvent::SpotifyClosed));
    assert_idle_but(&reaction, Some(stopped()), TimerAction::Keep);
    assert_eq!(service.liked_tracker.tracker.current_track_id, None);
    assert_eq!(service.play_pause_tracker.current_track_id, None);
    assert!(matches!(
        service.liked_tracker.toggle_liked(None, false),
        Err(spotifatius::tracker::TrackerError::NoCurrentTrack)
    ));
}

#[test]
fn library_change_is_announced_without_a_track() {
    let mut service = Service::new();
    let added = service.monitor(LoopInput::Event(ChangeEvent::TrackLiked(true)));
    assert_idle_but(
        &added,
        Some(MonitorResponse { track: None, status: TrackStatus::Added, is_liked: Some(true) }),
        TimerAction::Arm(2000),
    );
    let removed = service.monitor(LoopInput::Event(ChangeEvent::TrackLiked(false)));
    assert_idle_but(
        &removed,
        Some(MonitorResponse { track: None, status: TrackStatus::Removed, is_liked: Some(false) }),
        TimerAction::Arm(2000),
    );
    let saved = service.monitor(LoopInput::Event(ChangeEvent::TrackSaved(true)));
    assert_idle_but(
        &saved,
        Some(MonitorResponse { track: None, status: TrackStatus::Added, is_liked: Some(true) }),
        TimerAction::Arm(2000),
    );
}

#[test]
fn toggle_of_the_current_track_is_published_as_added() {
    let mut service = Service::new();
    service.liked_tracker.tracker.tracks.add("t1".to_string(), false);
    service.monitor(changed(TrackStatus::Playing, track(Some("t1"), Some("A"), Some("T"))));

    let pending = match service.liked_tracker.toggle_liked(None, false) {
        Ok(Outcome::Call(pending)) => pending,
        other => panic!("unexpected step {other:?}"),
    };
    assert!(matches!(&pending.call, RemoteCall::Add(id) if id == "t1"));
    let event = match service.liked_tracker.resume(pending, Reply::Done) {
        Ok(Outcome::Toggled(true, event)) => event,
        other => panic!("unexpected step {other:?}"),
    };
    assert_eq!(event, ChangeEvent::TrackLiked(true));
    assert_eq!(service.liked_tracker.is_liked_cached(&"t1".to_string()), Some(true));

    let reaction = service.monitor(LoopInput::Event(event));
    assert_eq!(
        reaction.publish,
        Some(MonitorResponse { track: None, status: TrackStatus::Added, is_liked: Some(true) })
    );
}

#[test]
fn timer_only_asks_for_an_update() {
    let mut service = Service::new();
    service.monitor(changed(TrackStatus::Playing, track(Some("t1"), Some("A"), Some("T"))));
    let reaction = service.monitor(LoopInput::TimerFired);
    assert_eq!(reaction.publish, None);
    assert_eq!(reaction.timer, TimerAction::Keep);
    assert!(reaction.request_update);
    assert!(reaction.follow_up.is_none());
    assert_eq!(reaction.stop, None);
    assert_eq!(service.liked_tracker.tracker.current_track_id, Some("t1".to_string()));
}

#[test]
fn invalid_track_id_is_published_but_not_asked_about() {
    let mut service = Service::new();
    let odd = track(Some("not:an:id"), Some("A"), Some("T"));
    let reaction = service.monitor(changed(TrackStatus::Playing, odd.clone()));
    assert_idle_but(
        &reaction,
        Some(MonitorResponse { track: Some(odd), status: TrackStatus::Playing, is_liked: None }),
        TimerAction::Reset,
    );
}

#[test]
fn answer_that_does_not_fit_publishes_nothing() {
    let mut service = Service::new();
    let reaction = service.monitor(changed(TrackStatus::Playing, track(Some("t1"), Some("A"), Some("T"))));
    let follow_up = reaction.follow_up.unwrap();
    assert_eq!(service.checked(follow_up, Reply::Done), None);
    assert_eq!(service.liked_tracker.is_liked_cached(&"t1".to_string()), None);
}

#[test]
fn end_of_the_adapter_ends_the_loop() {
    let mut service = Service::new();
    let failed = service.monitor(LoopInput::AdapterClosed(false));
    assert_eq!(failed.stop, Some(Stop { exit: Exit::AdapterFailed, cancel: Task::Server }));
    assert_eq!(failed.publish, None);
    let clean = service.monitor(LoopInput::AdapterClosed(true));
    assert_eq!(clean.stop, Some(Stop { exit: Exit::Clean, cancel: Task::Server }));
}

#[test]
fn taken_address_turns_the_process_into_a_relay() {
    let mut service = Service::new();
    let reaction = service.monitor(LoopInput::ServerClosed(Some(
        "Address already in use (os error 98)".to_string(),
    )));
    assert_eq!(reaction.stop, Some(Stop { exit: Exit::Relay, cancel: Task::Adapter }));
    assert_eq!(reaction.publish, None);
    assert!(!reaction.request_update);
}

#[test]
fn other_server_failures_are_fatal() {
    let mut service = Service::new();
    for cause in ["Permission denied (os error 13)", "", "(os error 98) at start", "os error 98"] {
        let reaction = service.monitor(LoopInput::ServerClosed(Some(cause.to_string())));
        assert_eq!(reaction.stop, Some(Stop { exit: Exit::ServerFailed, cancel: Task::Adapter }));
    }
}

#[test]
fn server_that_ends_without_error_ends_the_loop_cleanly() {
    let mut service = Service::new();
    let reaction = service.monitor(LoopInput::ServerClosed(None));
    assert_eq!(reaction.stop, Some(Stop { exit: Exit::Clean, cancel: Task::Adapter }));
}

#[test]
fn relay_waits_twice_as_long_after_each_failure() {
    assert_eq!(RELAY_CONNECT_ATTEMPTS, 6);
    assert_eq!(RELAY_FIRST_DELAY_MILLIS, 50);
    assert_eq!(relay_retry_delay(1), Some(50));
    assert_eq!(relay_retry_delay(2), Some(100));
    assert_eq!(relay_retry_delay(3), Some(200));
    assert_eq!(relay_retry_delay(4), Some(400));
    assert_eq!(relay_retry_delay(5), Some(800));
}

#[test]
fn relay_gives_up_when_its_attempts_are_spent() {
    assert_eq!(relay_retry_delay(0), None);
    assert_eq!(relay_retry_delay(6), None);
    assert_eq!(relay_retry_delay(7), None);
    assert_eq!(relay_retry_delay(u32::MAX), None);
}
