use yt_music_tauri::presence::{PresenceMessage, TrackMetadata};
use yt_music_tauri::shell::{
    browser_arguments, close_request_action, initialization_script, launch_mode,
    navigation_decision, new_window_action, plain_window_title, should_accept_presence_message,
    title_for_message, CloseAction, NavigationFacts, NewWindowAction, PageFacts,
    AD_BLOCK_SELF_TEST_SCRIPT,
};

const FLAGS: &str = "--autoplay-policy=no-user-gesture-required --disable-features=CalculateNativeWinOcclusion,CalculateNativeWinOcclusionTracking,IntensiveWakeUpThrottling --disable-backgrounding-occluded-windows --disable-renderer-backgrounding --disable-background-timer-throttling --user-agent=\"Mozilla/5.0 (Windows NT 10.0; Win64; x64) AppleWebKit/537.36 (KHTML, like Gecko) Chrome/131.0.0.0 Safari/537.36\"";

fn music_page() -> PageFacts {
    PageFacts { youtube_music: true, allowed_navigation: true }
}

fn account_page() -> PageFacts {
    PageFacts { youtube_music: false, allowed_navigation: true }
}

fn external_page() -> PageFacts {
    PageFacts { youtube_music: false, allowed_navigation: false }
}

fn track_message() -> PresenceMessage {
    PresenceMessage::Track(TrackMetadata {
        title: "Song".to_string(),
        artist: None,
        album: None,
        playing: true,
        url: None,
        cover_url: None,
        elapsed_seconds: None,
        duration_seconds: None,
    })
}

#[test]
fn accepts_track_titles_only_from_youtube_music() {
    let message = track_message();
    assert!(should_accept_presence_message(Some(music_page()), &message));
    assert!(!should_accept_presence_message(Some(account_page()), &message));
    assert!(!should_accept_presence_message(None, &message));
}

#[test]
fn accepts_clear_titles_from_allowed_pages() {
    let message = PresenceMessage::Clear;
    assert!(should_accept_presence_message(Some(music_page()), &message));
    assert!(should_accept_presence_message(Some(account_page()), &message));
    assert!(!should_accept_presence_message(Some(external_page()), &message));
    assert!(!should_accept_presence_message(None, &message));
}

#[test]
fn routes_allowed_new_windows_back_into_main_webview() {
    assert_eq!(
        new_window_action("https://music.youtube.com/", "https", true),
        NewWindowAction::NavigateInMainWebview
    );
    assert_eq!(
        new_window_action("https://accounts.google.com/signin", "https", true),
        NewWindowAction::NavigateInMainWebview
    );
    assert_eq!(
        new_window_action("https://example.com/", "https", false),
        NewWindowAction::OpenExternal
    );
    assert_eq!(new_window_action("about:blank", "about", false), NewWindowAction::Deny);
}

#[test]
fn browser_arguments_append_to_existing_ones() {
    assert_eq!(browser_arguments(None), FLAGS);
    assert_eq!(browser_arguments(Some("  ")), FLAGS);
    assert_eq!(browser_arguments(Some("--foo")), format!("--foo {FLAGS}"));
}

#[test]
fn initialization_script_orders_the_parts() {
    assert_eq!(
        initialization_script(true, false, "AD", "TRACK"),
        "window.__ytMusicTauriAdBlockEnabled = true;\nAD\nTRACK"
    );
    assert_eq!(
        initialization_script(false, true, "AD", "TRACK"),
        format!("window.__ytMusicTauriAdBlockEnabled = false;\nAD\n{AD_BLOCK_SELF_TEST_SCRIPT}\nTRACK")
    );
}

#[test]
fn launch_mode_follows_flags_and_setting() {
    let args = |list: &[&str]| list.iter().map(|value| value.to_string()).collect::<Vec<_>>();
    let tray = launch_mode(&args(&["app", "--tray"]), true);
    assert!(tray.start_in_tray && !tray.start_minimized && tray.start_hidden);
    let tray2 = launch_mode(&args(&["app", "--start-to-tray"]), false);
    assert!(tray2.start_in_tray && !tray2.start_minimized);
    let minimized = launch_mode(&args(&["app", "--minimized"]), false);
    assert!(!minimized.start_in_tray && minimized.start_minimized && minimized.start_hidden);
    let setting = launch_mode(&args(&["app"]), true);
    assert!(!setting.start_in_tray && setting.start_minimized);
    let plain = launch_mode(&args(&["app"]), false);
    assert!(!plain.start_hidden);
}

#[test]
fn close_goes_to_tray_unless_quitting() {
    assert_eq!(close_request_action(true, false), CloseAction::HideToTray);
    assert_eq!(close_request_action(true, true), CloseAction::Close);
    assert_eq!(close_request_action(false, false), CloseAction::Close);
}

#[test]
fn navigation_recovers_at_most_every_three_seconds() {
    let recovery = NavigationFacts {
        auth_recovery: true,
        allowed: true,
        youtube_music: false,
        auth_intermediate: false,
    };
    let soon = navigation_decision(recovery, "https", 101, 100);
    assert!(!soon.allow && !soon.reload_music);
    let later = navigation_decision(recovery, "https", 103, 100);
    assert!(!later.allow && later.reload_music);
    let clock_went_back = navigation_decision(recovery, "https", 50, 100);
    assert!(!clock_went_back.reload_music);

    let external = NavigationFacts {
        auth_recovery: false,
        allowed: false,
        youtube_music: false,
        auth_intermediate: false,
    };
    let decision = navigation_decision(external, "https", 0, 0);
    assert!(!decision.allow && decision.clear_presence && decision.open_external);
    let plain_http = navigation_decision(external, "http", 0, 0);
    assert!(!plain_http.open_external);

    let sign_in = NavigationFacts {
        auth_recovery: false,
        allowed: true,
        youtube_music: false,
        auth_intermediate: true,
    };
    let step = navigation_decision(sign_in, "https", 0, 0);
    assert!(step.allow && !step.clear_presence && !step.open_external);
}

#[test]
fn titles_pass_through_unless_blank_or_probe_messages() {
    assert_eq!(plain_window_title("Home").as_deref(), Some("Home"));
    assert_eq!(plain_window_title("   "), None);
    assert_eq!(plain_window_title("YTMRPC:{}"), None);
    assert_eq!(title_for_message(&PresenceMessage::Clear), "YouTube Music");
    assert_eq!(title_for_message(&track_message()), "Song - YouTube Music");
}
