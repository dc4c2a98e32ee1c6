use yt_music_tauri::media::{
    decode_window_message, pixels_from_coverage, thumb_buttons, write_tooltip, IconKind, MediaButton, MediaSession,
    ThumbBarCall, WindowMessage, NEXT_BUTTON, PLAY_PAUSE_BUTTON, PREVIOUS_BUTTON,
};
use yt_music_tauri::presence::TrackMetadata;

#[test]
fn tooltip_is_null_terminated() {
    let mut buffer = [0u16; 260];
    write_tooltip(&mut buffer, "Play");
    assert_eq!(&buffer[..5], &[80, 108, 97, 121, 0]);
}

#[test]
fn long_tooltips_keep_the_last_slot() {
    let mut buffer = [0u16; 260];
    let long = "x".repeat(400);
    write_tooltip(&mut buffer, &long);
    assert!(buffer[..259].iter().all(|unit| *unit == u16::from(b'x')));
    assert_eq!(buffer[259], 0);
}

#[test]
fn tooltips_are_utf16() {
    let mut buffer = [7u16; 260];
    write_tooltip(&mut buffer, "é\u{1F3B5}");
    assert_eq!(&buffer[..4], &[0x00E9, 0xD83C, 0xDFB5, 7]);
}

#[test]
fn last_track_state_persists_for_refresh() {
    let metadata = TrackMetadata {
        title: "Test Song".to_string(),
        artist: Some("Test Artist".to_string()),
        album: None,
        playing: true,
        url: None,
        cover_url: None,
        elapsed_seconds: Some(10),
        duration_seconds: Some(200),
    };

    let mut session = MediaSession::new();
    session.set_track(Some(metadata.clone()));

    let retrieved = session.last_track();
    assert!(retrieved.is_some());
    assert_eq!(retrieved.unwrap().title, "Test Song");
}

#[test]
fn play_pause_click_flips_the_remembered_track() {
    let mut session = MediaSession::new();
    assert!(session.toggle_playing().is_none());
    session.set_track(Some(TrackMetadata {
        title: "Song".to_string(),
        artist: None,
        album: None,
        playing: true,
        url: None,
        cover_url: None,
        elapsed_seconds: None,
        duration_seconds: None,
    }));
    assert!(!session.toggle_playing().unwrap().playing);
    assert!(session.toggle_playing().unwrap().playing);
    session.set_track(None);
    assert!(session.last_track().is_none());
}

#[test]
fn thumbnail_buttons_follow_playback() {
    let playing = thumb_buttons(true, true);
    assert_eq!(playing.len(), 3);
    assert_eq!(playing[0].id, PREVIOUS_BUTTON);
    assert_eq!(playing[1].icon, IconKind::Pause);
    assert_eq!(playing[1].tooltip, "Pause");
    assert_eq!(playing[2].id, NEXT_BUTTON);
    let paused = thumb_buttons(false, false);
    assert_eq!(paused[1].icon, IconKind::Play);
    assert_eq!(paused[1].tooltip, "Play");
    assert!(paused.iter().all(|button| !button.visible));
}

#[test]
fn thumbnail_clicks_are_decoded() {
    let click = |id: u64| (0x1800u64 << 16) | id;
    assert_eq!(
        decode_window_message(0x0111, click(u64::from(PREVIOUS_BUTTON)), None),
        WindowMessage::Clicked(MediaButton::Previous)
    );
    assert_eq!(
        decode_window_message(0x0111, click(u64::from(PLAY_PAUSE_BUTTON)), Some(0xC123)),
        WindowMessage::Clicked(MediaButton::PlayPause)
    );
    assert_eq!(
        decode_window_message(0x0111, click(0x1234), None),
        WindowMessage::ClickedOther
    );
    assert_eq!(decode_window_message(0x0111, 0x5001, None), WindowMessage::Other);
    assert_eq!(
        decode_window_message(0xC123, 0, Some(0xC123)),
        WindowMessage::TaskbarButtonCreated
    );
    assert_eq!(decode_window_message(0, 0, Some(0)), WindowMessage::Other);
}

#[test]
fn thumb_bar_falls_back_between_add_and_update() {
    let mut session = MediaSession::new();
    assert_eq!(session.first_thumb_call(), ThumbBarCall::Add);
    assert_eq!(session.thumb_call_result(ThumbBarCall::Add, false), Some(ThumbBarCall::Update));
    assert_eq!(session.thumb_call_result(ThumbBarCall::Update, true), None);
    assert_eq!(session.first_thumb_call(), ThumbBarCall::Update);
    assert_eq!(session.thumb_call_result(ThumbBarCall::Update, false), Some(ThumbBarCall::Add));
    session.taskbar_recreated();
    assert_eq!(session.first_thumb_call(), ThumbBarCall::Add);
}

#[test]
fn coverage_becomes_premultiplied_alpha() {
    let pixels = pixels_from_coverage(&vec![0, 16, 1, 8]);
    assert_eq!(pixels.len(), 16);
    assert_eq!(&pixels[..4], &[0, 0, 0, 0]);
    assert_eq!(&pixels[4..8], &[255, 255, 255, 255]);
    assert_eq!(&pixels[8..12], &[16, 16, 16, 16]);
    assert_eq!(&pixels[12..], &[128, 128, 128, 128]);
}
