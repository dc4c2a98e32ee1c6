use yt_music_tauri::adblock::{should_block_url, AdBlockController};

#[test]
fn network_level_blocking_disabled_to_prevent_playback_anti_adblock_locks() {
    assert!(!should_block_url(
        "https://googleads.g.doubleclick.net/pagead/id"
    ));
    assert!(!should_block_url("https://music.youtube.com/"));
    assert!(!should_block_url(
        "https://rr1---sn.googlevideo.com/videoplayback?expire=1&mime=audio/webm"
    ));
}

#[test]
fn new_controller_has_blocked_nothing() {
    let controller = AdBlockController::new(true);
    assert_eq!(controller.blocked_requests(), 0);
    let disabled = AdBlockController::new(false);
    assert_eq!(disabled.blocked_requests(), 0);
}

#[test]
fn switching_ad_block_keeps_the_blocked_count() {
    let controller = AdBlockController::new(true);
    let copy = controller.clone();
    controller.set_enabled(false);
    assert_eq!(controller.blocked_requests(), 0);
    copy.set_enabled(true);
    assert_eq!(copy.blocked_requests(), 0);
    assert_eq!(controller.blocked_requests(), 0);
}
