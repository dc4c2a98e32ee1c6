use yt_music_tauri::presence::{
    clean_presence_part, client_id_from_text, is_generic_source_label, is_metric_label,
    is_track_title_message, normalize_client_id, select_client_id, title_payload, TrackMetadata,
};

fn track(title: &str, artist: Option<&str>, album: Option<&str>, playing: bool) -> TrackMetadata {
    TrackMetadata {
        title: title.to_string(),
        artist: artist.map(|value| value.to_string()),
        album: album.map(|value| value.to_string()),
        playing,
        url: None,
        cover_url: None,
        elapsed_seconds: None,
        duration_seconds: None,
    }
}

#[test]
fn ignores_normal_titles() {
    assert!(title_payload("YouTube Music").is_none());
}

#[test]
fn ignores_non_track_titles_for_track_bridge() {
    assert!(title_payload("YouTube Music").is_none());
}

#[test]
fn probe_title_payload_is_the_json_after_the_marker() {
    let title = r#"YTMRPC:{"type":"clear"}"#;
    assert!(is_track_title_message(title));
    assert_eq!(title_payload(title).as_deref(), Some(r#"{"type":"clear"}"#));
    assert_eq!(title_payload("YTMRPC:").as_deref(), Some(""));
    assert!(!is_track_title_message("YTMRPC"));
    assert!(!is_track_title_message(" YTMRPC:{}"));
}

#[test]
fn drops_view_count_from_presence() {
    let track = TrackMetadata {
        title: "Song".to_string(),
        artist: Some("Artist".to_string()),
        album: Some("1.7m views".to_string()),
        playing: true,
        url: None,
        cover_url: None,
        elapsed_seconds: None,
        duration_seconds: None,
    };

    assert_eq!(track.presence_state().as_deref(), Some("Artist"));
    assert_eq!(track.asset_text(), "YouTube Music");
}

#[test]
fn presence_state_uses_artist_only() {
    let track = TrackMetadata {
        title: "Song".to_string(),
        artist: Some("Artist".to_string()),
        album: Some("Album".to_string()),
        playing: true,
        url: None,
        cover_url: None,
        elapsed_seconds: None,
        duration_seconds: None,
    };

    assert_eq!(track.presence_state().as_deref(), Some("Artist"));
}

#[test]
fn omits_redundant_youtube_music_state() {
    let track = TrackMetadata {
        title: "Song".to_string(),
        artist: Some("YouTube Music".to_string()),
        album: None,
        playing: true,
        url: None,
        cover_url: None,
        elapsed_seconds: None,
        duration_seconds: None,
    };

    assert_eq!(track.presence_state(), None);
}

#[test]
fn paused_tracks_show_paused() {
    let with_artist = track("Song", Some("  Artist  "), None, false);
    assert_eq!(with_artist.presence_state().as_deref(), Some("Artist - Paused"));
    let without_artist = track("Song", None, None, false);
    assert_eq!(without_artist.presence_state().as_deref(), Some("Paused"));
    let generic_artist = track("Song", Some("music.youtube.com"), None, false);
    assert_eq!(generic_artist.presence_state().as_deref(), Some("Paused"));
}

#[test]
fn window_title_names_artist_when_known() {
    assert_eq!(
        track("Song", Some("Artist"), None, true).window_title(),
        "Song - Artist - YouTube Music"
    );
    assert_eq!(track("Song", Some(""), None, true).window_title(), "Song - YouTube Music");
    assert_eq!(track("Song", None, None, true).window_title(), "Song - YouTube Music");
}

#[test]
fn album_is_cleaned_for_asset_text() {
    assert_eq!(track("Song", None, Some("  Album  "), true).asset_text(), "Album");
    assert_eq!(track("Song", None, Some("   "), true).asset_text(), "YouTube Music");
    assert_eq!(track("Song", None, Some("YouTube"), true).asset_text(), "YouTube Music");
}

#[test]
fn metric_labels_are_whole_words() {
    assert!(is_metric_label("1.7M VIEWS"));
    assert!(is_metric_label("12 likes\tand more"));
    assert!(is_metric_label("play"));
    assert!(!is_metric_label("Playlist"));
    assert!(!is_metric_label("Viewpoint"));
    assert!(!is_metric_label(""));
}

#[test]
fn generic_source_labels_ignore_case_and_spaces() {
    assert!(is_generic_source_label("  YouTube Music "));
    assert!(is_generic_source_label("MUSIC.YOUTUBE.COM"));
    assert!(is_generic_source_label("youtube"));
    assert!(!is_generic_source_label("YouTube Musician"));
}

#[test]
fn clean_presence_part_trims_and_filters() {
    assert_eq!(clean_presence_part(Some("  Artist\n")).as_deref(), Some("Artist"));
    assert_eq!(clean_presence_part(Some(" \u{3000} ")), None);
    assert_eq!(clean_presence_part(Some("5 subscribers")), None);
    assert_eq!(clean_presence_part(None), None);
}

#[test]
fn client_ids_keep_digits_only() {
    assert_eq!(normalize_client_id("  12a3-4\n"), "1234");
    assert_eq!(normalize_client_id(&normalize_client_id(" 9x8 ")), "98");
    assert_eq!(client_id_from_text(" none "), None);
    assert_eq!(client_id_from_text("42").as_deref(), Some("42"));
}

#[test]
fn client_id_prefers_variable_then_file_then_bundled() {
    assert_eq!(select_client_id(Some("111"), Some("222"), "333").as_deref(), Some("111"));
    assert_eq!(select_client_id(Some(" x "), Some("222"), "333").as_deref(), Some("222"));
    assert_eq!(select_client_id(None, None, " 333 ").as_deref(), Some("333"));
    assert_eq!(select_client_id(None, Some(""), "abc"), None);
}

#[test]
fn copies_of_a_track_are_equal() {
    let first = track("Song", Some("Artist"), Some("Album"), true);
    let copy = first.clone();
    assert!(copy == first);
    assert!(copy.same_as(&first));
    let paused = track("Song", Some("Artist"), Some("Album"), false);
    assert!(paused != first);
}
