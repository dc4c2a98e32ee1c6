use yt_music_tauri::discord::{
    activity_timestamps, ActivityKind, should_forward_track, ActivityPlan, PresenceController, PresenceState,
    PresenceStep,
};
use yt_music_tauri::presence::TrackMetadata;

fn song(title: &str, playing: bool) -> TrackMetadata {
    TrackMetadata {
        title: title.to_string(),
        artist: Some("Artist".to_string()),
        album: Some("Album".to_string()),
        playing,
        url: Some("https://music.youtube.com/watch?v=x".to_string()),
        cover_url: Some("https://lh3.googleusercontent.com/image".to_string()),
        elapsed_seconds: Some(17),
        duration_seconds: Some(134),
    }
}

#[test]
fn timestamps_start_before_now_and_span_the_track() {
    assert_eq!(
        activity_timestamps(true, Some(17), Some(134), Some(1_000_000)),
        Some((983_000, 1_117_000))
    );
    assert_eq!(activity_timestamps(false, Some(17), Some(134), Some(1_000_000)), None);
    assert_eq!(activity_timestamps(true, Some(134), Some(134), Some(1_000_000)), None);
    assert_eq!(activity_timestamps(true, Some(0), Some(0), Some(1_000_000)), None);
    assert_eq!(activity_timestamps(true, None, Some(134), Some(1_000_000)), None);
    assert_eq!(activity_timestamps(true, Some(1), Some(2), None), None);
    assert_eq!(
        activity_timestamps(true, Some(1), Some(2), Some(i64::MIN)),
        Some((i64::MIN, i64::MIN + 2000))
    );
    assert_eq!(
        activity_timestamps(true, Some(1), Some(u64::MAX), Some(0)),
        Some((-1000, -2000))
    );
    assert_eq!(
        activity_timestamps(true, Some(1), Some(u64::MAX / 2), None),
        None
    );
}

#[test]
fn activity_uses_only_the_links_it_is_given() {
    let track = song("Song", true);
    let plan = ActivityPlan::for_track(
        &track,
        Some("https://music.youtube.com/watch?v=x".to_string()),
        None,
        Some(1_000_000),
    );
    assert_eq!(plan.details, "Song");
    assert_eq!(plan.state.as_deref(), Some("Artist"));
    assert_eq!(plan.link_url.as_deref(), Some("https://music.youtube.com/watch?v=x"));
    assert_eq!(
        plan.button,
        Some((
            "Listen on YouTube Music".to_string(),
            "https://music.youtube.com/watch?v=x".to_string()
        ))
    );
    assert_eq!(plan.kind, ActivityKind::Listening);
    assert_eq!(plan.name, "YouTube Music");
    assert!(plan.state_is_status);
    assert!(plan.large_image.is_none());
    assert!(plan.large_text.is_none());
    assert!(plan.large_url.is_none());
    assert_eq!(plan.timestamps, Some((983_000, 1_117_000)));

    let with_art = ActivityPlan::for_track(
        &track,
        None,
        Some("https://lh3.googleusercontent.com/image".to_string()),
        None,
    );
    assert_eq!(with_art.large_text.as_deref(), Some("Album"));
    assert!(with_art.large_url.is_none());
    assert!(with_art.button.is_none());

    let mut no_artist = song("Song", true);
    no_artist.artist = None;
    let plain = ActivityPlan::for_track(&no_artist, None, None, None);
    assert!(plain.state.is_none());
    assert!(!plain.state_is_status);
    assert!(with_art.timestamps.is_none());
}

#[test]
fn worker_skips_a_track_it_already_published() {
    let mut state = PresenceState::new(Some("42".to_string()));
    let track = song("Song", true);
    assert_eq!(state.begin(&track), PresenceStep::Connect("42".to_string()));
    assert!(state.connect_result(&track, true));
    assert!(state.is_connected());
    state.publish_result(&track, true);
    assert_eq!(state.begin(&track), PresenceStep::Skip);
    assert_eq!(state.begin(&song("Other", true)), PresenceStep::Publish);
}

#[test]
fn worker_retries_after_a_failed_publication() {
    let mut state = PresenceState::new(Some("42".to_string()));
    let track = song("Song", true);
    assert_eq!(state.begin(&track), PresenceStep::Connect("42".to_string()));
    assert!(state.connect_result(&track, true));
    state.publish_result(&track, false);
    assert!(!state.is_connected());
    assert!(state.last_track().is_none());
    assert_eq!(state.begin(&track), PresenceStep::Connect("42".to_string()));
}

#[test]
fn worker_without_client_id_only_remembers() {
    let mut state = PresenceState::new(None);
    let track = song("Song", false);
    assert_eq!(state.begin(&track), PresenceStep::Remembered);
    assert_eq!(state.last_track().unwrap().title, "Song");
    assert_eq!(state.begin(&track), PresenceStep::Skip);
}

#[test]
fn failed_connection_remembers_the_track() {
    let mut state = PresenceState::new(Some("7".to_string()));
    let track = song("Song", true);
    assert_eq!(state.begin(&track), PresenceStep::Connect("7".to_string()));
    assert!(!state.connect_result(&track, false));
    assert_eq!(state.begin(&track), PresenceStep::Skip);
}

#[test]
fn blank_titles_are_not_forwarded() {
    assert!(!should_forward_track(&song(" \t ", true)));
    assert!(should_forward_track(&song("Song", true)));
    let (tx, rx) = std::sync::mpsc::sync_channel::<TrackMetadata>(1);
    let mut controller = PresenceController::with_sender(tx);
    assert!(!controller.update(song("  ", true)));
    assert!(controller.clone().update(song("Song", true)));
    assert!(!controller.update(song("Queue full", true)));
    assert_eq!(rx.recv().unwrap().title, "Song");
}
